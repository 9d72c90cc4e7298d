# starcore

StarCore is a live wallpaper for Windows that draws the machine's CPU load as
an animated constellation of glowing cores. This crate holds its decision
logic as a library verified with Verus, and the Windows program around it.

- `src/` — the verified library: the settings file and its round trip, the
  remote GPU monitor's configuration, its reading parser and its polling
  state machine, CPU load between two readings, monitor geometry, the choice
  of the desktop window behind the icons, the tray menu and its commands, the
  settings dialog, frame pacing, UTF-16 text for Win32, how the wallpaper
  windows answer messages, and the choice of the wallpaper image.
- `app/` — the program: Win32 windows and message loops, the tray icon, the
  wgpu renderer (floating point throughout), threads, files and processes.
  It calls the library for every decision.
- `tests/` — tests of the library on concrete values.
