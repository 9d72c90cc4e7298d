//! The settings dialog: which control a notification comes from and what a
//! selection in it does to the state.
use vstd::prelude::*;
use crate::settings::{AppState, ColorPreset};
use crate::tray::{preset_at, preset_position, position_of_preset};

verus! {

/// The "wallpaper load effect" check box.
pub const ID_CHECKBOX_BG_EFFECT: i32 = 3005;

/// The colour preset list.
pub const ID_COMBO_COLOR: i32 = 3006;

/// The glow intensity list.
pub const ID_COMBO_GLOW: i32 = 3007;

/// The frame rate list.
pub const ID_COMBO_FPS: i32 = 3008;

/// The notification code of a changed list selection.
pub const CBN_SELCHANGE: u32 = 1;

/// What a `WM_COMMAND` to the dialog is about.
#[derive(Clone, Copy, PartialEq, Eq, Debug, Structural)]
pub enum DialogCommand {
    /// The check box was clicked; read its state.
    BgEffectClicked,
    /// The selection of a list changed; read it.
    SelectionChanged { control: i32 },
    /// Nothing to do.
    Ignored,
}

/// Classifies a `WM_COMMAND`: its control id is the low word of `wparam`,
/// the notification code the high word, and `lparam` is the control's
/// window (zero for menus and accelerators, which are ignored).
pub open spec fn dialog_command_of(wparam: int, lparam: int) -> DialogCommand {
    let id = wparam % 0x10000;
    let code = (wparam / 0x10000) % 0x10000;
    if lparam == 0 {
        DialogCommand::Ignored
    } else if id == ID_CHECKBOX_BG_EFFECT && code == 0 {
        DialogCommand::BgEffectClicked
    } else if code == CBN_SELCHANGE {
        DialogCommand::SelectionChanged { control: id as i32 }
    } else {
        DialogCommand::Ignored
    }
}

/// Classifies a `WM_COMMAND` sent to the settings dialog.
pub fn dialog_command(wparam: usize, lparam: isize) -> (c: DialogCommand)
    ensures
        c == dialog_command_of(wparam as int, lparam as int),
{
    let id = wparam & 0xFFFF;
    let code = (wparam >> 16) & 0xFFFF;
    assert(wparam & 0xFFFF == wparam % 0x10000) by (bit_vector);
    assert((wparam >> 16) & 0xFFFF == (wparam / 0x10000) % 0x10000) by (bit_vector);
    if lparam == 0 {
        DialogCommand::Ignored
    } else if id == 3005 && code == 0 {
        DialogCommand::BgEffectClicked
    } else if code == 1 {
        DialogCommand::SelectionChanged { control: id as i32 }
    } else {
        DialogCommand::Ignored
    }
}

/// What a click on the background-effect check box does: the switch takes
/// the box's new state, nothing else changes.
pub open spec fn check_box_effect(s: AppState, checked: bool) -> AppState {
    AppState { bg_effect_enabled: checked, ..s }
}

/// Applies a click on the background-effect check box, which now shows
/// `checked`; returns whether the settings are to be saved (always).
pub fn apply_bg_effect_check(state: &mut AppState, checked: bool) -> (save: bool)
    ensures
        *final(state) == check_box_effect(*old(state), checked),
        save,
{
    state.bg_effect_enabled = checked;
    true
}

/// The preset at position `i` of the dialog's colour list, which shows the
/// first five presets; any other position selects `AtomicStarlink`.
pub open spec fn combo_preset(i: int) -> ColorPreset {
    if i == 1 {
        ColorPreset::Cyberpunk
    } else if i == 2 {
        ColorPreset::AcidGreen
    } else if i == 3 {
        ColorPreset::SolarFlame
    } else if i == 4 {
        ColorPreset::DeepOcean
    } else {
        ColorPreset::AtomicStarlink
    }
}

/// What selecting position `sel` of list `control` does: no selection (a
/// negative position) changes nothing; otherwise the colour list sets the
/// preset, the glow list the glow level (the position as a `u8`), the frame
/// rate list 30 (first entry) or 60 frames per second, and the settings are
/// saved (the returned flag).
pub open spec fn selection_effect(s: AppState, control: i32, sel: i32) -> (AppState, bool) {
    if sel < 0 {
        (s, false)
    } else if control == ID_COMBO_COLOR {
        (AppState { color_preset: combo_preset(sel as int), ..s }, true)
    } else if control == ID_COMBO_GLOW {
        (AppState { glow: (sel % 256) as u8, ..s }, true)
    } else if control == ID_COMBO_FPS {
        (AppState { fps: if sel == 0 { 30 } else { 60 }, ..s }, true)
    } else {
        (s, true)
    }
}

/// Applies the selection `sel` of list `control`; returns whether the
/// settings are to be saved.
pub fn apply_selection(state: &mut AppState, control: i32, sel: i32) -> (save: bool)
    ensures
        (*final(state), save) == selection_effect(*old(state), control, sel),
{
    if sel < 0 {
        return false;
    }
    if control == ID_COMBO_COLOR {
        state.color_preset = if sel == 1 {
            ColorPreset::Cyberpunk
        } else if sel == 2 {
            ColorPreset::AcidGreen
        } else if sel == 3 {
            ColorPreset::SolarFlame
        } else if sel == 4 {
            ColorPreset::DeepOcean
        } else {
            ColorPreset::AtomicStarlink
        };
    } else if control == ID_COMBO_GLOW {
        state.glow = (sel % 256) as u8;
    } else if control == ID_COMBO_FPS {
        state.fps = if sel == 0 {
            30
        } else {
            60
        };
    }
    true
}

/// The entries that the dialog's lists show selected when it opens.
#[derive(Clone, Copy, PartialEq, Eq, Debug, Structural)]
pub struct DialogSelections {
    /// The position of the current preset.
    pub preset: usize,
    /// The glow level.
    pub glow: usize,
    /// 0 for 30 frames per second, 1 otherwise.
    pub fps: usize,
}

/// The entries that the dialog's lists show selected for `state`.
pub fn dialog_selections(state: &AppState) -> (d: DialogSelections)
    ensures
        d.preset == preset_position(state.color_preset),
        d.glow == state.glow,
        d.fps == if state.fps == 30 {
            0usize
        } else {
            1usize
        },
{
    DialogSelections {
        preset: position_of_preset(state.color_preset),
        glow: state.glow as usize,
        fps: if state.fps == 30 {
            0
        } else {
            1
        },
    }
}

/// Law: the entries that the dialog shows selected select the state back:
/// the preset (for the five presets that the colour list shows), the glow
/// level, and a frame rate of 30 or 60.
pub proof fn law_dialog_round_trip(s: AppState)
    ensures
        preset_position(s.color_preset) < 5 ==> selection_effect(
            s,
            ID_COMBO_COLOR,
            preset_position(s.color_preset) as i32,
        ).0.color_preset == s.color_preset,
        selection_effect(s, ID_COMBO_GLOW, s.glow as i32).0.glow == s.glow,
        (s.fps == 30 || s.fps == 60) ==> selection_effect(
            s,
            ID_COMBO_FPS,
            if s.fps == 30 {
                0i32
            } else {
                1i32
            },
        ).0.fps == s.fps,
{
}

/// Law: of the dialog's lists (controls 3006 to 3008), a selection at a
/// non-negative position is saved and sets only its field: the colour list
/// the preset at that menu position for the five presets it shows and
/// `AtomicStarlink` further down, the glow list the glow level equal to the
/// position, and the frame-rate list 30 frames per second for its first
/// entry and 60 for any other. No selection (a negative position) changes
/// nothing and saves nothing.
pub proof fn law_dialog_lists(s: AppState, sel: i32)
    ensures
        sel < 0 ==> selection_effect(s, 3006, sel) == (s, false) && selection_effect(s, 3007, sel)
            == (s, false) && selection_effect(s, 3008, sel) == (s, false),
        0 <= sel < 5 ==> selection_effect(s, 3006, sel) == (
            AppState { color_preset: preset_at(sel as int)->0, ..s },
            true,
        ),
        sel >= 5 ==> selection_effect(s, 3006, sel) == (
            AppState { color_preset: ColorPreset::AtomicStarlink, ..s },
            true,
        ),
        0 <= sel <= 255 ==> selection_effect(s, 3007, sel) == (AppState { glow: sel as u8, ..s }, true),
        sel == 0 ==> selection_effect(s, 3008, sel) == (AppState { fps: 30, ..s }, true),
        sel > 0 ==> selection_effect(s, 3008, sel) == (AppState { fps: 60, ..s }, true),
{
}

} // verus!
