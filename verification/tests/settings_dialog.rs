use starcore::dialog::{
    apply_bg_effect_check, apply_selection, dialog_command, dialog_selections, DialogCommand, DialogSelections,
    CBN_SELCHANGE, ID_CHECKBOX_BG_EFFECT, ID_COMBO_COLOR, ID_COMBO_FPS, ID_COMBO_GLOW,
};
use starcore::settings::{default_app_state, ColorPreset};

fn wparam(id: i32, code: u32) -> usize {
    ((code as usize) << 16) | id as usize
}

#[test]
fn dialog_constants() {
    assert_eq!(ID_CHECKBOX_BG_EFFECT, 3005);
    assert_eq!(ID_COMBO_COLOR, 3006);
    assert_eq!(ID_COMBO_GLOW, 3007);
    assert_eq!(ID_COMBO_FPS, 3008);
    assert_eq!(CBN_SELCHANGE, 1);
}

#[test]
fn checkbox_click_recognised() {
    assert_eq!(dialog_command(wparam(3005, 0), 0x1234), DialogCommand::BgEffectClicked);
    assert_eq!(dialog_command(wparam(3005, 0), 0), DialogCommand::Ignored);
    assert_eq!(dialog_command(wparam(3005, 5), 0x1234), DialogCommand::Ignored);
}

#[test]
fn selection_change_recognised() {
    assert_eq!(
        dialog_command(wparam(3007, 1), 0x1234),
        DialogCommand::SelectionChanged { control: 3007 }
    );
    assert_eq!(
        dialog_command(wparam(4242, 1), -8),
        DialogCommand::SelectionChanged { control: 4242 }
    );
    assert_eq!(dialog_command(wparam(3007, 2), 0x1234), DialogCommand::Ignored);
    assert_eq!(dialog_command(wparam(3006, 1), 0), DialogCommand::Ignored);
}

#[test]
fn color_list_selects_first_five_presets() {
    let expected = [
        ColorPreset::AtomicStarlink,
        ColorPreset::Cyberpunk,
        ColorPreset::AcidGreen,
        ColorPreset::SolarFlame,
        ColorPreset::DeepOcean,
        ColorPreset::AtomicStarlink,
        ColorPreset::AtomicStarlink,
    ];
    for (i, p) in expected.iter().enumerate() {
        let mut s = default_app_state();
        s.color_preset = ColorPreset::FrostByte;
        assert!(apply_selection(&mut s, ID_COMBO_COLOR, i as i32));
        assert_eq!(s.color_preset, *p);
    }
}

#[test]
fn glow_and_fps_lists() {
    let mut s = default_app_state();
    assert!(apply_selection(&mut s, ID_COMBO_GLOW, 2));
    assert_eq!(s.glow, 2);
    assert!(apply_selection(&mut s, ID_COMBO_GLOW, 300));
    assert_eq!(s.glow, 44);
    assert!(apply_selection(&mut s, ID_COMBO_FPS, 0));
    assert_eq!(s.fps, 30);
    assert!(apply_selection(&mut s, ID_COMBO_FPS, 1));
    assert_eq!(s.fps, 60);
    assert!(apply_selection(&mut s, ID_COMBO_FPS, 7));
    assert_eq!(s.fps, 60);
}

#[test]
fn no_selection_changes_nothing() {
    let mut s = default_app_state();
    assert!(!apply_selection(&mut s, ID_COMBO_FPS, -1));
    assert_eq!(s, default_app_state());
}

#[test]
fn other_control_saves_without_change() {
    let mut s = default_app_state();
    assert!(apply_selection(&mut s, 4242, 1));
    assert_eq!(s, default_app_state());
}

#[test]
fn dialog_opens_with_current_selection() {
    let mut s = default_app_state();
    s.color_preset = ColorPreset::DeepOcean;
    s.glow = 2;
    s.fps = 30;
    assert_eq!(dialog_selections(&s), DialogSelections { preset: 4, glow: 2, fps: 0 });
    s.fps = 144;
    assert_eq!(dialog_selections(&s).fps, 1);
}

#[test]
fn dialog_selection_round_trip() {
    for p in [ColorPreset::AtomicStarlink, ColorPreset::Cyberpunk, ColorPreset::AcidGreen, ColorPreset::SolarFlame, ColorPreset::DeepOcean] {
        for (glow, fps) in [(0u8, 30u32), (1, 60), (2, 30)] {
            let mut s = default_app_state();
            s.color_preset = p;
            s.glow = glow;
            s.fps = fps;
            let d = dialog_selections(&s);
            let mut t = default_app_state();
            apply_selection(&mut t, ID_COMBO_COLOR, d.preset as i32);
            apply_selection(&mut t, ID_COMBO_GLOW, d.glow as i32);
            apply_selection(&mut t, ID_COMBO_FPS, d.fps as i32);
            assert_eq!((t.color_preset, t.glow, t.fps), (p, glow, fps));
        }
    }
}

#[test]
fn check_box_sets_only_the_effect_switch() {
    let mut s = default_app_state();
    assert!(apply_bg_effect_check(&mut s, false));
    let mut expected = default_app_state();
    expected.bg_effect_enabled = false;
    assert_eq!(s, expected);
    assert!(apply_bg_effect_check(&mut s, true));
    assert_eq!(s, default_app_state());
}
