//! StarCore: the decision logic of a CPU-driven live wallpaper, verified.
pub mod text;
pub mod settings;
pub mod ssh;
pub mod reading;
pub mod gpu_monitor;
pub mod poller;
pub mod cpu;
pub mod display;
pub mod wide;
pub mod desktop;
pub mod tray;
pub mod dialog;
pub mod clock;
pub mod names;
pub mod wallpaper;
pub mod wndproc;
