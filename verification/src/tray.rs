//! The tray icon's menu and what its commands do to the application state.
use vstd::prelude::*;
use crate::settings::{AppState, ColorPreset};

verus! {

broadcast use vstd::string::group_string_axioms;

/// The message that the tray icon sends to its window (`WM_USER + 1`).
pub const WM_TRAY_CALLBACK: u32 = 0x0401;

/// Menu command: exit.
pub const ID_EXIT: usize = 1001;

/// Menu command: reload the wallpaper image.
pub const ID_REFRESH: usize = 1008;

/// Menu command: toggle the background load effect.
pub const ID_BG_EFFECT: usize = 1010;

/// Menu command of the first colour preset; the others follow it.
pub const ID_COLOR_BASE: usize = 1100;

/// The preset at position `i` of the menu and the dialog's list.
pub open spec fn preset_at(i: int) -> Option<ColorPreset> {
    if i == 0 {
        Some(ColorPreset::AtomicStarlink)
    } else if i == 1 {
        Some(ColorPreset::Cyberpunk)
    } else if i == 2 {
        Some(ColorPreset::AcidGreen)
    } else if i == 3 {
        Some(ColorPreset::SolarFlame)
    } else if i == 4 {
        Some(ColorPreset::DeepOcean)
    } else if i == 5 {
        Some(ColorPreset::EmeraldPulse)
    } else if i == 6 {
        Some(ColorPreset::CrimsonNova)
    } else if i == 7 {
        Some(ColorPreset::VioletNight)
    } else if i == 8 {
        Some(ColorPreset::AmberGhost)
    } else if i == 9 {
        Some(ColorPreset::FrostByte)
    } else {
        None
    }
}

/// The position of a preset in the menu and the dialog's list.
pub open spec fn preset_position(p: ColorPreset) -> nat {
    match p {
        ColorPreset::AtomicStarlink => 0,
        ColorPreset::Cyberpunk => 1,
        ColorPreset::AcidGreen => 2,
        ColorPreset::SolarFlame => 3,
        ColorPreset::DeepOcean => 4,
        ColorPreset::EmeraldPulse => 5,
        ColorPreset::CrimsonNova => 6,
        ColorPreset::VioletNight => 7,
        ColorPreset::AmberGhost => 8,
        ColorPreset::FrostByte => 9,
    }
}

/// The label of a preset in the tray menu.
pub open spec fn preset_label(p: ColorPreset) -> Seq<char> {
    match p {
        ColorPreset::AtomicStarlink => "Atomic Starlink"@,
        ColorPreset::Cyberpunk => "Cyberpunk"@,
        ColorPreset::AcidGreen => "Acid Green"@,
        ColorPreset::SolarFlame => "Solar Flame"@,
        ColorPreset::DeepOcean => "Deep Ocean"@,
        ColorPreset::EmeraldPulse => "Emerald Pulse"@,
        ColorPreset::CrimsonNova => "Crimson Nova"@,
        ColorPreset::VioletNight => "Violet Night"@,
        ColorPreset::AmberGhost => "Amber Ghost"@,
        ColorPreset::FrostByte => "Frost Byte"@,
    }
}

/// The preset at position `i`, if any.
pub fn preset_from_position(i: usize) -> (p: Option<ColorPreset>)
    ensures
        p == preset_at(i as int),
{
    match i {
        0 => Some(ColorPreset::AtomicStarlink),
        1 => Some(ColorPreset::Cyberpunk),
        2 => Some(ColorPreset::AcidGreen),
        3 => Some(ColorPreset::SolarFlame),
        4 => Some(ColorPreset::DeepOcean),
        5 => Some(ColorPreset::EmeraldPulse),
        6 => Some(ColorPreset::CrimsonNova),
        7 => Some(ColorPreset::VioletNight),
        8 => Some(ColorPreset::AmberGhost),
        9 => Some(ColorPreset::FrostByte),
        _ => None,
    }
}

/// The position of `p` in the menu and the dialog's list.
pub fn position_of_preset(p: ColorPreset) -> (i: usize)
    ensures
        i == preset_position(p),
        i < 10,
{
    match p {
        ColorPreset::AtomicStarlink => 0,
        ColorPreset::Cyberpunk => 1,
        ColorPreset::AcidGreen => 2,
        ColorPreset::SolarFlame => 3,
        ColorPreset::DeepOcean => 4,
        ColorPreset::EmeraldPulse => 5,
        ColorPreset::CrimsonNova => 6,
        ColorPreset::VioletNight => 7,
        ColorPreset::AmberGhost => 8,
        ColorPreset::FrostByte => 9,
    }
}

/// The label of `p` in the tray menu.
pub fn label_of_preset(p: ColorPreset) -> (s: String)
    ensures
        s@ == preset_label(p),
{
    match p {
        ColorPreset::AtomicStarlink => "Atomic Starlink".to_string(),
        ColorPreset::Cyberpunk => "Cyberpunk".to_string(),
        ColorPreset::AcidGreen => "Acid Green".to_string(),
        ColorPreset::SolarFlame => "Solar Flame".to_string(),
        ColorPreset::DeepOcean => "Deep Ocean".to_string(),
        ColorPreset::EmeraldPulse => "Emerald Pulse".to_string(),
        ColorPreset::CrimsonNova => "Crimson Nova".to_string(),
        ColorPreset::VioletNight => "Violet Night".to_string(),
        ColorPreset::AmberGhost => "Amber Ghost".to_string(),
        ColorPreset::FrostByte => "Frost Byte".to_string(),
    }
}

/// An entry of the tray menu.
pub struct MenuEntry {
    /// The text shown (empty for a separator).
    pub label: String,
    /// The command it sends (0 for a separator).
    pub id: usize,
    /// Whether it shows a check mark.
    pub checked: bool,
    /// Whether it is a separator line.
    pub separator: bool,
}

/// A menu entry as values.
pub struct MenuEntryView {
    pub label: Seq<char>,
    pub id: usize,
    pub checked: bool,
    pub separator: bool,
}

impl View for MenuEntry {
    type V = MenuEntryView;

    open spec fn view(&self) -> MenuEntryView {
        MenuEntryView {
            label: self.label@,
            id: self.id,
            checked: self.checked,
            separator: self.separator,
        }
    }
}

pub open spec fn menu_item(label: Seq<char>, id: usize, checked: bool) -> MenuEntryView {
    MenuEntryView { label, id, checked, separator: false }
}

pub open spec fn menu_separator() -> MenuEntryView {
    MenuEntryView { label: Seq::empty(), id: 0, checked: false, separator: true }
}

/// The tray menu: the ten presets (the current one checked), a separator,
/// the background effect switch (checked when on), "Refresh Wallpaper",
/// a separator and "Exit".
pub open spec fn tray_menu(bg_effect_enabled: bool, current: ColorPreset) -> Seq<MenuEntryView> {
    Seq::new(
        10,
        |i: int|
            menu_item(
                preset_label(preset_at(i)->0),
                (ID_COLOR_BASE + i) as usize,
                preset_at(i)->0 == current,
            ),
    ) + seq![
        menu_separator(),
        menu_item("Wallpaper Load Effect"@, ID_BG_EFFECT, bg_effect_enabled),
        menu_item("Refresh Wallpaper"@, ID_REFRESH, false),
        menu_separator(),
        menu_item("Exit"@, ID_EXIT, false),
    ]
}

fn push_entry(menu: &mut Vec<MenuEntry>, e: MenuEntry)
    ensures
        final(menu)@.map_values(|m: MenuEntry| m@) == old(menu)@.map_values(|m: MenuEntry| m@).push(
            e@,
        ),
{
    menu.push(e);
    assert(menu@.map_values(|m: MenuEntry| m@) =~= old(menu)@.map_values(|m: MenuEntry| m@).push(
        e@,
    ));
}

/// The entries of the tray menu, in order.
pub fn context_menu(bg_effect_enabled: bool, current: ColorPreset) -> (menu: Vec<MenuEntry>)
    ensures
        menu@.map_values(|m: MenuEntry| m@) == tray_menu(bg_effect_enabled, current),
{
    let mut menu: Vec<MenuEntry> = Vec::new();
    let ghost presets = Seq::new(
        10,
        |i: int|
            menu_item(
                preset_label(preset_at(i)->0),
                (ID_COLOR_BASE + i) as usize,
                preset_at(i)->0 == current,
            ),
    );
    let mut i: usize = 0;
    while i < 10
        invariant
            i <= 10,
            menu@.map_values(|m: MenuEntry| m@) == presets.subrange(0, i as int),
            presets == Seq::new(
                10,
                |i: int|
                    menu_item(
                        preset_label(preset_at(i)->0),
                        (ID_COLOR_BASE + i) as usize,
                        preset_at(i)->0 == current,
                    ),
            ),
        decreases 10 - i,
    {
        let p = preset_from_position(i).unwrap();
        let e = MenuEntry {
            label: label_of_preset(p),
            id: ID_COLOR_BASE + i,
            checked: p == current,
            separator: false,
        };
        push_entry(&mut menu, e);
        i += 1;
        assert(menu@.map_values(|m: MenuEntry| m@) =~= presets.subrange(0, i as int));
    }
    assert(presets.subrange(0, 10) =~= presets);
    push_entry(&mut menu, MenuEntry { label: String::new(), id: 0, checked: false, separator: true });
    push_entry(
        &mut menu,
        MenuEntry {
            label: "Wallpaper Load Effect".to_string(),
            id: ID_BG_EFFECT,
            checked: bg_effect_enabled,
            separator: false,
        },
    );
    push_entry(
        &mut menu,
        MenuEntry {
            label: "Refresh Wallpaper".to_string(),
            id: ID_REFRESH,
            checked: false,
            separator: false,
        },
    );
    push_entry(&mut menu, MenuEntry { label: String::new(), id: 0, checked: false, separator: true });
    push_entry(
        &mut menu,
        MenuEntry { label: "Exit".to_string(), id: ID_EXIT, checked: false, separator: false },
    );
    assert(menu@.map_values(|m: MenuEntry| m@) =~= tray_menu(bg_effect_enabled, current));
    menu
}

/// Whether a tray icon notification (its `lParam`) opens the menu: a left
/// or right button release (`WM_LBUTTONUP`, `WM_RBUTTONUP`).
pub open spec fn opens_menu(lparam: isize) -> bool {
    let event = #[verifier::truncate] (lparam as u32);
    event == 0x0202 || event == 0x0205
}

/// Whether a tray icon notification opens the menu.
pub fn tray_event_opens_menu(lparam: isize) -> (r: bool)
    ensures
        r == opens_menu(lparam),
{
    let event = #[verifier::truncate] (lparam as u32);
    event == 0x0202 || event == 0x0205
}

/// What a menu command asks of the tray thread besides the state change.
#[derive(Clone, Copy, PartialEq, Eq, Debug, Structural)]
pub struct TrayOutcome {
    /// End the tray's message loop.
    pub quit: bool,
    /// Write the settings file.
    pub save: bool,
}

/// What the menu command `id` does: exit, ask for a wallpaper reload,
/// toggle the background effect, or select a preset; the last two change
/// the saved settings. Other ids do nothing.
pub open spec fn tray_command(s: AppState, id: int) -> (AppState, TrayOutcome) {
    if id == ID_EXIT {
        (AppState { should_exit: true, ..s }, TrayOutcome { quit: true, save: false })
    } else if id == ID_REFRESH {
        (AppState { pending_refresh: true, ..s }, TrayOutcome { quit: false, save: false })
    } else if id == ID_BG_EFFECT {
        (
            AppState { bg_effect_enabled: !s.bg_effect_enabled, ..s },
            TrayOutcome { quit: false, save: true },
        )
    } else if ID_COLOR_BASE <= id < ID_COLOR_BASE + 10 {
        (
            AppState { color_preset: preset_at(id - ID_COLOR_BASE)->0, ..s },
            TrayOutcome { quit: false, save: true },
        )
    } else {
        (s, TrayOutcome { quit: false, save: false })
    }
}

/// Carries out the menu command in the low word of `wparam`.
pub fn apply_tray_command(state: &mut AppState, wparam: usize) -> (o: TrayOutcome)
    ensures
        (*final(state), o) == tray_command(*old(state), wparam as int % 0x10000),
{
    let id = wparam & 0xFFFF;
    assert(wparam & 0xFFFF == wparam % 0x10000) by (bit_vector);
    if id == ID_EXIT {
        state.should_exit = true;
        TrayOutcome { quit: true, save: false }
    } else if id == ID_REFRESH {
        state.pending_refresh = true;
        TrayOutcome { quit: false, save: false }
    } else if id == ID_BG_EFFECT {
        state.bg_effect_enabled = !state.bg_effect_enabled;
        TrayOutcome { quit: false, save: true }
    } else if ID_COLOR_BASE <= id && id < ID_COLOR_BASE + 10 {
        state.color_preset = preset_from_position(id - ID_COLOR_BASE).unwrap();
        TrayOutcome { quit: false, save: true }
    } else {
        TrayOutcome { quit: false, save: false }
    }
}

/// The requests that the tray and dialog threads leave for the render loop.
#[derive(Clone, Copy, PartialEq, Eq, Debug, Structural)]
pub struct PendingRequests {
    pub refresh: bool,
    pub logo_update: bool,
    pub settings_show: bool,
}

/// Takes the pending requests out of the state, clearing them.
pub fn take_pending_requests(state: &mut AppState) -> (r: PendingRequests)
    ensures
        r == (PendingRequests {
            refresh: old(state).pending_refresh,
            logo_update: old(state).pending_logo_update,
            settings_show: old(state).pending_settings_show,
        }),
        *final(state) == (AppState {
            pending_refresh: false,
            pending_logo_update: false,
            pending_settings_show: false,
            ..*old(state)
        }),
{
    let r = PendingRequests {
        refresh: state.pending_refresh,
        logo_update: state.pending_logo_update,
        settings_show: state.pending_settings_show,
    };
    state.pending_refresh = false;
    state.pending_logo_update = false;
    state.pending_settings_show = false;
    r
}

/// Law: the menu checks exactly the current preset, and choosing the entry
/// of a preset makes that preset current (so the next menu checks it) and
/// saves the settings.
pub proof fn law_menu_selects_preset(bg: bool, current: ColorPreset, s: AppState, i: int)
    requires
        0 <= i < 10,
        s.color_preset == current,
    ensures
        ({
            let entry = tray_menu(bg, current)[i];
            let (s2, o) = tray_command(s, entry.id as int);
            &&& entry.checked == (preset_at(i)->0 == current)
            &&& s2.color_preset == preset_at(i)->0
            &&& tray_menu(bg, s2.color_preset)[i].checked
            &&& o.save
            &&& !o.quit
        }),
{
    assert(tray_menu(bg, current)[i] == menu_item(
        preset_label(preset_at(i)->0),
        (ID_COLOR_BASE + i) as usize,
        preset_at(i)->0 == current,
    ));
    let s2 = tray_command(s, (ID_COLOR_BASE + i) as int).0;
    assert(tray_menu(bg, s2.color_preset)[i] == menu_item(
        preset_label(preset_at(i)->0),
        (ID_COLOR_BASE + i) as usize,
        preset_at(i)->0 == s2.color_preset,
    ));
}

/// Law: toggling the background effect twice restores the state.
pub proof fn law_bg_toggle_involution(s: AppState)
    ensures
        tray_command(tray_command(s, ID_BG_EFFECT as int).0, ID_BG_EFFECT as int).0 == s,
{
}

/// Law: every preset has a menu position, and that position gives it back.
pub proof fn law_preset_positions(p: ColorPreset)
    ensures
        preset_position(p) < 10,
        preset_at(preset_position(p) as int) == Some(p),
{
}

/// Law: of the tray commands (the low word of the command's `wParam`),
/// 1001 (Exit) only asks the application to exit and ends the tray loop
/// without saving; 1008 (Refresh Wallpaper) only asks for a wallpaper reload;
/// 1010 flips only the background effect and saves; 1100 to 1109 select
/// only the preset at that menu position and save; any other command changes
/// nothing.
pub proof fn law_tray_commands(s: AppState, id: int)
    ensures
        ({
            let (s2, o) = tray_command(s, id);
            &&& id == 1001 ==> s2 == (AppState { should_exit: true, ..s }) && o.quit && !o.save
            &&& id == 1008 ==> s2 == (AppState { pending_refresh: true, ..s }) && !o.quit && !o.save
            &&& id == 1010 ==> s2 == (AppState { bg_effect_enabled: !s.bg_effect_enabled, ..s })
                && !o.quit && o.save
            &&& 1100 <= id < 1110 ==> s2 == (AppState {
                color_preset: preset_at(id - 1100)->0,
                ..s
            }) && !o.quit && o.save
            &&& !(id == 1001 || id == 1008 || id == 1010 || 1100 <= id < 1110) ==> s2 == s
                && !o.quit && !o.save
        }),
{
}

} // verus!
