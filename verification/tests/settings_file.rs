use starcore::settings::{default_app_state, format_settings, parse_settings, AppState, ColorPreset};

fn all_presets() -> Vec<ColorPreset> {
    vec![
        ColorPreset::AtomicStarlink,
        ColorPreset::Cyberpunk,
        ColorPreset::AcidGreen,
        ColorPreset::SolarFlame,
        ColorPreset::DeepOcean,
        ColorPreset::EmeraldPulse,
        ColorPreset::CrimsonNova,
        ColorPreset::VioletNight,
        ColorPreset::AmberGhost,
        ColorPreset::FrostByte,
    ]
}

#[test]
fn default_state_values() {
    let s = default_app_state();
    assert!(!s.is_paused);
    assert_eq!(s.fps, 60);
    assert_eq!(s.glow, 1);
    assert!(!s.should_exit);
    assert_eq!(s.color_preset, ColorPreset::AtomicStarlink);
    assert!(s.bg_effect_enabled);
    assert!(!s.pending_refresh);
    assert!(!s.pending_logo_update);
    assert!(!s.pending_settings_show);
}

#[test]
fn format_settings_exact_text() {
    let mut s = default_app_state();
    s.color_preset = ColorPreset::Cyberpunk;
    s.fps = 30;
    s.glow = 2;
    s.bg_effect_enabled = false;
    assert_eq!(
        format_settings(&s),
        "color_preset=Cyberpunk\nfps=30\nglow=2\nbg_effect_enabled=false\n"
    );
}

#[test]
fn format_settings_default_text() {
    let s = default_app_state();
    assert_eq!(
        format_settings(&s),
        "color_preset=AtomicStarlink\nfps=60\nglow=1\nbg_effect_enabled=true\n"
    );
}

#[test]
fn saved_settings_load_back_for_every_preset() {
    for p in all_presets() {
        for (fps, glow, bg) in [(0u32, 0u8, false), (30, 1, true), (u32::MAX, u8::MAX, true), (144, 7, false)] {
            let mut s = default_app_state();
            s.color_preset = p;
            s.fps = fps;
            s.glow = glow;
            s.bg_effect_enabled = bg;
            let back = parse_settings(&format_settings(&s));
            assert_eq!(back.color_preset, p);
            assert_eq!(back.fps, fps);
            assert_eq!(back.glow, glow);
            assert_eq!(back.bg_effect_enabled, bg);
            assert!(!back.is_paused && !back.should_exit);
            assert!(!back.pending_refresh && !back.pending_logo_update && !back.pending_settings_show);
        }
    }
}

#[test]
fn parse_settings_empty_gives_defaults() {
    assert_eq!(parse_settings(""), default_app_state());
}

#[test]
fn parse_settings_trims_keys_and_values() {
    let s = parse_settings("  fps =  45 \r\nglow= 0\n bg_effect_enabled = false\ncolor_preset =  FrostByte  \n");
    assert_eq!(s.fps, 45);
    assert_eq!(s.glow, 0);
    assert!(!s.bg_effect_enabled);
    assert_eq!(s.color_preset, ColorPreset::FrostByte);
}

#[test]
fn parse_settings_bad_values_keep_previous() {
    let s = parse_settings("fps=abc\nglow=256\nbg_effect_enabled=yes\n");
    assert_eq!(s.fps, 60);
    assert_eq!(s.glow, 1);
    assert!(s.bg_effect_enabled);
    let s = parse_settings("fps=-5\nglow=\nbg_effect_enabled=True\n");
    assert_eq!(s.fps, 60);
    assert_eq!(s.glow, 1);
    assert!(s.bg_effect_enabled);
}

#[test]
fn parse_settings_accepts_plus_sign() {
    let s = parse_settings("fps=+5\nglow=+2\n");
    assert_eq!(s.fps, 5);
    assert_eq!(s.glow, 2);
}

#[test]
fn parse_settings_line_with_two_equals_is_ignored() {
    let s = parse_settings("fps=30=40\nglow=2\n");
    assert_eq!(s.fps, 60);
    assert_eq!(s.glow, 2);
}

#[test]
fn parse_settings_unknown_preset_is_atomic_starlink() {
    let s = parse_settings("color_preset=Cyberpunk\ncolor_preset=NoSuchTheme\n");
    assert_eq!(s.color_preset, ColorPreset::AtomicStarlink);
    let s = parse_settings("color_preset=cyberpunk\n");
    assert_eq!(s.color_preset, ColorPreset::AtomicStarlink);
}

#[test]
fn parse_settings_later_lines_win_and_unknown_keys_ignored() {
    let s = parse_settings("fps=30\nspeed=9\nfps=75\n# comment\n");
    assert_eq!(s.fps, 75);
    let expected = AppState { fps: 75, ..default_app_state() };
    assert_eq!(s, expected);
}

#[test]
fn parse_settings_u32_limit() {
    assert_eq!(parse_settings("fps=4294967295").fps, 4294967295);
    assert_eq!(parse_settings("fps=4294967296").fps, 60);
}
