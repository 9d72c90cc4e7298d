use starcore::settings::{default_app_state, ColorPreset};
use starcore::tray::{
    apply_tray_command, context_menu, label_of_preset, position_of_preset, preset_from_position,
    take_pending_requests, tray_event_opens_menu, PendingRequests, TrayOutcome, ID_BG_EFFECT,
    ID_COLOR_BASE, ID_EXIT, ID_REFRESH, WM_TRAY_CALLBACK,
};

const LABELS: [&str; 10] = [
    "Atomic Starlink",
    "Cyberpunk",
    "Acid Green",
    "Solar Flame",
    "Deep Ocean",
    "Emerald Pulse",
    "Crimson Nova",
    "Violet Night",
    "Amber Ghost",
    "Frost Byte",
];

#[test]
fn tray_constants() {
    assert_eq!(WM_TRAY_CALLBACK, 0x0400 + 1);
    assert_eq!(ID_EXIT, 1001);
    assert_eq!(ID_REFRESH, 1008);
    assert_eq!(ID_BG_EFFECT, 1010);
    assert_eq!(ID_COLOR_BASE, 1100);
}

#[test]
fn preset_positions_round_trip() {
    for i in 0..10 {
        let p = preset_from_position(i).unwrap();
        assert_eq!(position_of_preset(p), i);
        assert_eq!(label_of_preset(p), LABELS[i]);
    }
    assert_eq!(preset_from_position(10), None);
    assert_eq!(preset_from_position(0), Some(ColorPreset::AtomicStarlink));
    assert_eq!(preset_from_position(9), Some(ColorPreset::FrostByte));
}

#[test]
fn menu_layout() {
    let menu = context_menu(true, ColorPreset::SolarFlame);
    assert_eq!(menu.len(), 15);
    for i in 0..10 {
        assert_eq!(menu[i].label, LABELS[i]);
        assert_eq!(menu[i].id, ID_COLOR_BASE + i);
        assert_eq!(menu[i].checked, i == 3);
        assert!(!menu[i].separator);
    }
    assert!(menu[10].separator);
    assert_eq!(menu[11].label, "Wallpaper Load Effect");
    assert_eq!(menu[11].id, ID_BG_EFFECT);
    assert!(menu[11].checked);
    assert_eq!(menu[12].label, "Refresh Wallpaper");
    assert_eq!(menu[12].id, ID_REFRESH);
    assert!(!menu[12].checked);
    assert!(menu[13].separator);
    assert_eq!(menu[14].label, "Exit");
    assert_eq!(menu[14].id, ID_EXIT);
    let menu = context_menu(false, ColorPreset::AtomicStarlink);
    assert!(!menu[11].checked);
    assert!(menu[0].checked);
    assert!((1..10).all(|i| !menu[i].checked));
}

#[test]
fn menu_opens_on_button_release() {
    assert!(tray_event_opens_menu(0x0202));
    assert!(tray_event_opens_menu(0x0205));
    assert!(!tray_event_opens_menu(0x0201));
    assert!(!tray_event_opens_menu(0x0200));
    assert!(tray_event_opens_menu(0x1_0000_0205));
}

#[test]
fn tray_exit_command() {
    let mut s = default_app_state();
    let o = apply_tray_command(&mut s, ID_EXIT);
    assert_eq!(o, TrayOutcome { quit: true, save: false });
    assert!(s.should_exit);
}

#[test]
fn tray_refresh_command() {
    let mut s = default_app_state();
    let o = apply_tray_command(&mut s, ID_REFRESH);
    assert_eq!(o, TrayOutcome { quit: false, save: false });
    assert!(s.pending_refresh);
    assert!(!s.should_exit);
}

#[test]
fn tray_bg_toggle_twice_restores() {
    let start = default_app_state();
    let mut s = start;
    let o = apply_tray_command(&mut s, ID_BG_EFFECT);
    assert_eq!(o, TrayOutcome { quit: false, save: true });
    assert!(!s.bg_effect_enabled);
    apply_tray_command(&mut s, ID_BG_EFFECT);
    assert_eq!(s, start);
}

#[test]
fn tray_preset_command_selects_and_menu_checks_it() {
    for i in 0..10 {
        let mut s = default_app_state();
        let o = apply_tray_command(&mut s, ID_COLOR_BASE + i);
        assert_eq!(o, TrayOutcome { quit: false, save: true });
        assert_eq!(s.color_preset, preset_from_position(i).unwrap());
        let menu = context_menu(s.bg_effect_enabled, s.color_preset);
        assert!(menu[i].checked);
    }
}

#[test]
fn tray_command_uses_low_word() {
    let mut s = default_app_state();
    let o = apply_tray_command(&mut s, (7usize << 16) | ID_EXIT);
    assert!(o.quit && s.should_exit);
}

#[test]
fn tray_unknown_command_does_nothing() {
    for id in [0usize, 1002, 1110, 65535] {
        let mut s = default_app_state();
        let o = apply_tray_command(&mut s, id);
        assert_eq!(o, TrayOutcome { quit: false, save: false });
        assert_eq!(s, default_app_state());
    }
}

#[test]
fn pending_requests_taken_once() {
    let mut s = default_app_state();
    s.pending_refresh = true;
    s.pending_settings_show = true;
    let r = take_pending_requests(&mut s);
    assert_eq!(r, PendingRequests { refresh: true, logo_update: false, settings_show: true });
    assert_eq!(s, default_app_state());
    let r = take_pending_requests(&mut s);
    assert_eq!(r, PendingRequests { refresh: false, logo_update: false, settings_show: false });
}
