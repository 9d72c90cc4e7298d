//! Application state and its settings file: what is saved, how a saved file
//! is read back, and how tray and dialog commands change the state.
use vstd::prelude::*;
use crate::text::{
    bool_text, decimal, find, lemma_decimal, lemma_find_absent, lemma_find_concat,
    lemma_lines_concat, lemma_parse_decimal, lemma_trim_plain, lines_of, parse_bool,
    parse_bool_range, parse_unsigned, parse_unsigned_range, push_chars, push_decimal, range_is,
    string_of, trim, trim_bounds, find_char, chars_of, is_space, word_true, word_false, is_digit,
};

verus! {

/// The colour themes of the wallpaper.
#[derive(Clone, Copy, PartialEq, Eq, Debug, Structural)]
pub enum ColorPreset {
    AtomicStarlink,
    Cyberpunk,
    AcidGreen,
    SolarFlame,
    DeepOcean,
    EmeraldPulse,
    CrimsonNova,
    VioletNight,
    AmberGhost,
    FrostByte,
}

/// The state that the render loop, the tray and the settings dialog share.
#[derive(Clone, Copy, PartialEq, Eq, Debug, Structural)]
pub struct AppState {
    pub is_paused: bool,
    pub fps: u32,
    pub glow: u8,
    pub should_exit: bool,
    pub color_preset: ColorPreset,
    pub bg_effect_enabled: bool,
    pub pending_refresh: bool,
    pub pending_logo_update: bool,
    pub pending_settings_show: bool,
}

/// The state at start-up, before the settings file is read.
pub open spec fn default_state() -> AppState {
    AppState {
        is_paused: false,
        fps: 60,
        glow: 1,
        should_exit: false,
        color_preset: ColorPreset::AtomicStarlink,
        bg_effect_enabled: true,
        pending_refresh: false,
        pending_logo_update: false,
        pending_settings_show: false,
    }
}

/// The state at start-up, before the settings file is read.
pub fn default_app_state() -> (s: AppState)
    ensures
        s == default_state(),
{
    AppState {
        is_paused: false,
        fps: 60,
        glow: 1,
        should_exit: false,
        color_preset: ColorPreset::AtomicStarlink,
        bg_effect_enabled: true,
        pending_refresh: false,
        pending_logo_update: false,
        pending_settings_show: false,
    }
}

/// The name of a preset, as `{:?}` writes it.
pub open spec fn preset_name(p: ColorPreset) -> Seq<char> {
    match p {
        ColorPreset::AtomicStarlink => seq!['A', 't', 'o', 'm', 'i', 'c', 'S', 't', 'a', 'r', 'l', 'i', 'n', 'k'],
        ColorPreset::Cyberpunk => seq!['C', 'y', 'b', 'e', 'r', 'p', 'u', 'n', 'k'],
        ColorPreset::AcidGreen => seq!['A', 'c', 'i', 'd', 'G', 'r', 'e', 'e', 'n'],
        ColorPreset::SolarFlame => seq!['S', 'o', 'l', 'a', 'r', 'F', 'l', 'a', 'm', 'e'],
        ColorPreset::DeepOcean => seq!['D', 'e', 'e', 'p', 'O', 'c', 'e', 'a', 'n'],
        ColorPreset::EmeraldPulse => seq!['E', 'm', 'e', 'r', 'a', 'l', 'd', 'P', 'u', 'l', 's', 'e'],
        ColorPreset::CrimsonNova => seq!['C', 'r', 'i', 'm', 's', 'o', 'n', 'N', 'o', 'v', 'a'],
        ColorPreset::VioletNight => seq!['V', 'i', 'o', 'l', 'e', 't', 'N', 'i', 'g', 'h', 't'],
        ColorPreset::AmberGhost => seq!['A', 'm', 'b', 'e', 'r', 'G', 'h', 'o', 's', 't'],
        ColorPreset::FrostByte => seq!['F', 'r', 'o', 's', 't', 'B', 'y', 't', 'e'],
    }
}

/// The preset that a name in the settings file selects; an unknown name
/// selects `AtomicStarlink`.
pub open spec fn preset_named(name: Seq<char>) -> ColorPreset {
    if name == preset_name(ColorPreset::Cyberpunk) {
        ColorPreset::Cyberpunk
    } else if name == preset_name(ColorPreset::AcidGreen) {
        ColorPreset::AcidGreen
    } else if name == preset_name(ColorPreset::SolarFlame) {
        ColorPreset::SolarFlame
    } else if name == preset_name(ColorPreset::DeepOcean) {
        ColorPreset::DeepOcean
    } else if name == preset_name(ColorPreset::EmeraldPulse) {
        ColorPreset::EmeraldPulse
    } else if name == preset_name(ColorPreset::CrimsonNova) {
        ColorPreset::CrimsonNova
    } else if name == preset_name(ColorPreset::VioletNight) {
        ColorPreset::VioletNight
    } else if name == preset_name(ColorPreset::AmberGhost) {
        ColorPreset::AmberGhost
    } else if name == preset_name(ColorPreset::FrostByte) {
        ColorPreset::FrostByte
    } else {
        ColorPreset::AtomicStarlink
    }
}

/// Appends the name of `p` to `out`.
pub fn push_preset_name(out: &mut Vec<char>, p: ColorPreset)
    ensures
        final(out)@ == old(out)@ + preset_name(p),
{
    match p {
        ColorPreset::AtomicStarlink => {
            let w = ['A', 't', 'o', 'm', 'i', 'c', 'S', 't', 'a', 'r', 'l', 'i', 'n', 'k'];
            assert(w@ == preset_name(p));
            push_chars(out, &w);
        },
        ColorPreset::Cyberpunk => {
            let w = ['C', 'y', 'b', 'e', 'r', 'p', 'u', 'n', 'k'];
            assert(w@ == preset_name(p));
            push_chars(out, &w);
        },
        ColorPreset::AcidGreen => {
            let w = ['A', 'c', 'i', 'd', 'G', 'r', 'e', 'e', 'n'];
            assert(w@ == preset_name(p));
            push_chars(out, &w);
        },
        ColorPreset::SolarFlame => {
            let w = ['S', 'o', 'l', 'a', 'r', 'F', 'l', 'a', 'm', 'e'];
            assert(w@ == preset_name(p));
            push_chars(out, &w);
        },
        ColorPreset::DeepOcean => {
            let w = ['D', 'e', 'e', 'p', 'O', 'c', 'e', 'a', 'n'];
            assert(w@ == preset_name(p));
            push_chars(out, &w);
        },
        ColorPreset::EmeraldPulse => {
            let w = ['E', 'm', 'e', 'r', 'a', 'l', 'd', 'P', 'u', 'l', 's', 'e'];
            assert(w@ == preset_name(p));
            push_chars(out, &w);
        },
        ColorPreset::CrimsonNova => {
            let w = ['C', 'r', 'i', 'm', 's', 'o', 'n', 'N', 'o', 'v', 'a'];
            assert(w@ == preset_name(p));
            push_chars(out, &w);
        },
        ColorPreset::VioletNight => {
            let w = ['V', 'i', 'o', 'l', 'e', 't', 'N', 'i', 'g', 'h', 't'];
            assert(w@ == preset_name(p));
            push_chars(out, &w);
        },
        ColorPreset::AmberGhost => {
            let w = ['A', 'm', 'b', 'e', 'r', 'G', 'h', 'o', 's', 't'];
            assert(w@ == preset_name(p));
            push_chars(out, &w);
        },
        ColorPreset::FrostByte => {
            let w = ['F', 'r', 'o', 's', 't', 'B', 'y', 't', 'e'];
            assert(w@ == preset_name(p));
            push_chars(out, &w);
        },
    }
}

/// The preset named by `v[a..b]`.
pub fn preset_named_range(v: &[char], a: usize, b: usize) -> (p: ColorPreset)
    requires
        a <= b <= v@.len(),
    ensures
        p == preset_named(v@.subrange(a as int, b as int)),
{
    let w = ['C', 'y', 'b', 'e', 'r', 'p', 'u', 'n', 'k'];
    assert(w@ == preset_name(ColorPreset::Cyberpunk));
    if range_is(v, a, b, &w) {
        return ColorPreset::Cyberpunk;
    }
    let w = ['A', 'c', 'i', 'd', 'G', 'r', 'e', 'e', 'n'];
    assert(w@ == preset_name(ColorPreset::AcidGreen));
    if range_is(v, a, b, &w) {
        return ColorPreset::AcidGreen;
    }
    let w = ['S', 'o', 'l', 'a', 'r', 'F', 'l', 'a', 'm', 'e'];
    assert(w@ == preset_name(ColorPreset::SolarFlame));
    if range_is(v, a, b, &w) {
        return ColorPreset::SolarFlame;
    }
    let w = ['D', 'e', 'e', 'p', 'O', 'c', 'e', 'a', 'n'];
    assert(w@ == preset_name(ColorPreset::DeepOcean));
    if range_is(v, a, b, &w) {
        return ColorPreset::DeepOcean;
    }
    let w = ['E', 'm', 'e', 'r', 'a', 'l', 'd', 'P', 'u', 'l', 's', 'e'];
    assert(w@ == preset_name(ColorPreset::EmeraldPulse));
    if range_is(v, a, b, &w) {
        return ColorPreset::EmeraldPulse;
    }
    let w = ['C', 'r', 'i', 'm', 's', 'o', 'n', 'N', 'o', 'v', 'a'];
    assert(w@ == preset_name(ColorPreset::CrimsonNova));
    if range_is(v, a, b, &w) {
        return ColorPreset::CrimsonNova;
    }
    let w = ['V', 'i', 'o', 'l', 'e', 't', 'N', 'i', 'g', 'h', 't'];
    assert(w@ == preset_name(ColorPreset::VioletNight));
    if range_is(v, a, b, &w) {
        return ColorPreset::VioletNight;
    }
    let w = ['A', 'm', 'b', 'e', 'r', 'G', 'h', 'o', 's', 't'];
    assert(w@ == preset_name(ColorPreset::AmberGhost));
    if range_is(v, a, b, &w) {
        return ColorPreset::AmberGhost;
    }
    let w = ['F', 'r', 'o', 's', 't', 'B', 'y', 't', 'e'];
    assert(w@ == preset_name(ColorPreset::FrostByte));
    if range_is(v, a, b, &w) {
        return ColorPreset::FrostByte;
    }
    ColorPreset::AtomicStarlink
}

pub open spec fn key_color_preset() -> Seq<char> {
    seq!['c', 'o', 'l', 'o', 'r', '_', 'p', 'r', 'e', 's', 'e', 't']
}

pub open spec fn key_fps() -> Seq<char> {
    seq!['f', 'p', 's']
}

pub open spec fn key_glow() -> Seq<char> {
    seq!['g', 'l', 'o', 'w']
}

pub open spec fn key_bg_effect() -> Seq<char> {
    seq!['b', 'g', '_', 'e', 'f', 'f', 'e', 'c', 't', '_', 'e', 'n', 'a', 'b', 'l', 'e', 'd']
}

/// One `key=value` line of the settings file.
pub open spec fn setting_line(key: Seq<char>, value: Seq<char>) -> Seq<char> {
    key + seq!['='] + value
}

/// The settings file that `save_settings` writes for `s`: the colour preset,
/// the frame rate, the glow level and the background effect switch, one
/// `key=value` line each.
pub open spec fn settings_text(s: AppState) -> Seq<char> {
    setting_line(key_color_preset(), preset_name(s.color_preset)) + seq!['\n']
        + setting_line(key_fps(), decimal(s.fps as nat)) + seq!['\n']
        + setting_line(key_glow(), decimal(s.glow as nat)) + seq!['\n']
        + setting_line(key_bg_effect(), bool_text(s.bg_effect_enabled)) + seq!['\n']
}

/// What one line of the settings file does to the state. A line counts only
/// when it holds exactly one `=`; key and value are trimmed. A value that
/// does not parse leaves the field as it was, except for the colour preset,
/// where an unknown name selects `AtomicStarlink`. Unknown keys are ignored.
pub open spec fn apply_setting(st: AppState, line: Seq<char>) -> AppState {
    let i = find(line, '=');
    let rest = line.subrange(i as int + 1, line.len() as int);
    if i < line.len() && find(rest, '=') == rest.len() {
        let key = trim(line.subrange(0, i as int));
        let value = trim(rest);
        if key == key_fps() {
            match parse_unsigned(value, u32::MAX as nat) {
                Some(n) => AppState { fps: n as u32, ..st },
                None => st,
            }
        } else if key == key_glow() {
            match parse_unsigned(value, u8::MAX as nat) {
                Some(n) => AppState { glow: n as u8, ..st },
                None => st,
            }
        } else if key == key_bg_effect() {
            match parse_bool(value) {
                Some(b) => AppState { bg_effect_enabled: b, ..st },
                None => st,
            }
        } else if key == key_color_preset() {
            AppState { color_preset: preset_named(value), ..st }
        } else {
            st
        }
    } else {
        st
    }
}

/// The lines of a settings file applied in order.
pub open spec fn apply_settings(st: AppState, lines: Seq<Seq<char>>) -> AppState
    decreases lines.len(),
{
    if lines.len() == 0 {
        st
    } else {
        apply_settings(apply_setting(st, lines[0]), lines.drop_first())
    }
}

/// The state that `load_settings` makes of the text of a settings file.
pub open spec fn settings_from_text(content: Seq<char>) -> AppState {
    apply_settings(default_state(), lines_of(content))
}

/// The text of the settings file for `state` (what `save_settings` writes).
pub fn format_settings(state: &AppState) -> (res: String)
    ensures
        res@ == settings_text(*state),
{
    let mut out: Vec<char> = Vec::new();
    let k1 = ['c', 'o', 'l', 'o', 'r', '_', 'p', 'r', 'e', 's', 'e', 't', '='];
    assert(k1@ == key_color_preset() + seq!['=']);
    push_chars(&mut out, &k1);
    push_preset_name(&mut out, state.color_preset);
    let k2 = ['\n', 'f', 'p', 's', '='];
    assert(k2@ == seq!['\n'] + key_fps() + seq!['=']);
    push_chars(&mut out, &k2);
    push_decimal(&mut out, state.fps as u64);
    let k3 = ['\n', 'g', 'l', 'o', 'w', '='];
    assert(k3@ == seq!['\n'] + key_glow() + seq!['=']);
    push_chars(&mut out, &k3);
    push_decimal(&mut out, state.glow as u64);
    let k4 = [
        '\n', 'b', 'g', '_', 'e', 'f', 'f', 'e', 'c', 't', '_', 'e', 'n', 'a', 'b', 'l', 'e', 'd',
        '=',
    ];
    assert(k4@ == seq!['\n'] + key_bg_effect() + seq!['=']);
    push_chars(&mut out, &k4);
    if state.bg_effect_enabled {
        let t = ['t', 'r', 'u', 'e', '\n'];
        assert(t@ == word_true() + seq!['\n']);
        push_chars(&mut out, &t);
    } else {
        let f = ['f', 'a', 'l', 's', 'e', '\n'];
        assert(f@ == word_false() + seq!['\n']);
        push_chars(&mut out, &f);
    }
    assert(out@ =~= settings_text(*state));
    string_of(&out)
}

/// Applies the line `v[a..b]` of a settings file to `st`.
fn apply_setting_range(st: &mut AppState, v: &[char], a: usize, b: usize)
    requires
        a <= b <= v@.len(),
    ensures
        *final(st) == apply_setting(*old(st), v@.subrange(a as int, b as int)),
{
    let ghost line = v@.subrange(a as int, b as int);
    let i = find_char(v, a, b, '=');
    if i == b {
        return;
    }
    let j = find_char(v, i + 1, b, '=');
    let ghost rest = line.subrange(i - a + 1, line.len() as int);
    assert(rest =~= v@.subrange(i + 1, b as int));
    assert(line.subrange(0, i - a) =~= v@.subrange(a as int, i as int));
    if j != b {
        return;
    }
    let (ka, kb) = trim_bounds(v, a, i);
    let (va, vb) = trim_bounds(v, i + 1, b);
    let w_fps = ['f', 'p', 's'];
    let w_glow = ['g', 'l', 'o', 'w'];
    let w_bg = ['b', 'g', '_', 'e', 'f', 'f', 'e', 'c', 't', '_', 'e', 'n', 'a', 'b', 'l', 'e', 'd'];
    let w_preset = ['c', 'o', 'l', 'o', 'r', '_', 'p', 'r', 'e', 's', 'e', 't'];
    assert(w_fps@ == key_fps());
    assert(w_glow@ == key_glow());
    assert(w_bg@ == key_bg_effect());
    assert(w_preset@ == key_color_preset());
    if range_is(v, ka, kb, &w_fps) {
        if let Some(n) = parse_unsigned_range(v, va, vb, 0xffff_ffff) {
            st.fps = n as u32;
        }
    } else if range_is(v, ka, kb, &w_glow) {
        if let Some(n) = parse_unsigned_range(v, va, vb, 0xff) {
            st.glow = n as u8;
        }
    } else if range_is(v, ka, kb, &w_bg) {
        if let Some(flag) = parse_bool_range(v, va, vb) {
            st.bg_effect_enabled = flag;
        }
    } else if range_is(v, ka, kb, &w_preset) {
        st.color_preset = preset_named_range(v, va, vb);
    }
}

/// The state that the text of a settings file describes (what
/// `load_settings` makes of the file it reads).
pub fn parse_settings(content: &str) -> (st: AppState)
    ensures
        st == settings_from_text(content@),
{
    let v = chars_of(content);
    let len = v.len();
    let mut st = default_app_state();
    let mut pos: usize = 0;
    assert(v@.subrange(0, len as int) =~= v@);
    while pos < len
        invariant
            pos <= len == v@.len(),
            v@ == content@,
            settings_from_text(content@) == apply_settings(
                st,
                lines_of(v@.subrange(pos as int, len as int)),
            ),
        decreases len - pos,
    {
        let i = find_char(&v, pos, len, '\n');
        let ghost s = v@.subrange(pos as int, len as int);
        let ghost old_st = st;
        apply_setting_range(&mut st, &v, pos, i);
        assert(s.subrange(0, i - pos) =~= v@.subrange(pos as int, i as int));
        if i == len {
            assert(lines_of(s) == seq![s]);
            assert(v@.subrange(pos as int, i as int) =~= s);
            assert(seq![s].drop_first() =~= Seq::<Seq<char>>::empty());
            assert(lines_of(v@.subrange(len as int, len as int)) == Seq::<Seq<char>>::empty());
            pos = len;
        } else {
            let ghost tail = v@.subrange(i + 1, len as int);
            assert(s.subrange(i - pos + 1, s.len() as int) =~= tail);
            assert(lines_of(s) == seq![v@.subrange(pos as int, i as int)] + lines_of(tail));
            assert((seq![v@.subrange(pos as int, i as int)] + lines_of(tail)).drop_first()
                =~= lines_of(tail));
            pos = i + 1;
        }
    }
    assert(v@.subrange(len as int, len as int) =~= Seq::<char>::empty());
    st
}

// ---------------------------------------------------------------------------
// The saved settings load back
// ---------------------------------------------------------------------------

/// A value that a settings line can carry unchanged: non-empty, without `=`
/// or line feed, and with no white space at either end.
pub open spec fn plain_value(s: Seq<char>) -> bool {
    &&& s.len() > 0
    &&& forall|k: int| 0 <= k < s.len() ==> #[trigger] s[k] != '=' && s[k] != '\n'
    &&& !is_space(s[0])
    &&& !is_space(s.last())
}

proof fn lemma_plain_line(st: AppState, key: Seq<char>, value: Seq<char>)
    requires
        plain_value(key),
        plain_value(value),
    ensures
        find(setting_line(key, value), '=') == key.len(),
        ({
            let line = setting_line(key, value);
            let i = find(line, '=');
            let rest = line.subrange(i as int + 1, line.len() as int);
            &&& rest == value
            &&& find(rest, '=') == rest.len()
            &&& trim(line.subrange(0, i as int)) == key
            &&& trim(rest) == value
        }),
{
    let line = setting_line(key, value);
    lemma_find_concat(key, '=', value);
    assert(line.subrange(key.len() as int + 1, line.len() as int) =~= value);
    assert(line.subrange(0, key.len() as int) =~= key);
    lemma_find_absent(value, '=');
    lemma_trim_plain(key);
    lemma_trim_plain(value);
}

proof fn lemma_preset_names(p: ColorPreset)
    ensures
        plain_value(preset_name(p)),
        preset_named(preset_name(p)) == p,
{
    let n = preset_name(p);
    assert(preset_name(ColorPreset::AtomicStarlink)[0] == 'A');
    assert(preset_name(ColorPreset::Cyberpunk)[0] == 'C');
    assert(preset_name(ColorPreset::AcidGreen)[1] == 'c');
    assert(preset_name(ColorPreset::SolarFlame)[0] == 'S');
    assert(preset_name(ColorPreset::DeepOcean)[0] == 'D');
    assert(preset_name(ColorPreset::EmeraldPulse)[0] == 'E');
    assert(preset_name(ColorPreset::CrimsonNova)[1] == 'r');
    assert(preset_name(ColorPreset::VioletNight)[0] == 'V');
    assert(preset_name(ColorPreset::AmberGhost)[1] == 'm');
    assert(preset_name(ColorPreset::FrostByte)[0] == 'F');
}

proof fn lemma_keys()
    ensures
        plain_value(key_color_preset()),
        plain_value(key_fps()),
        plain_value(key_glow()),
        plain_value(key_bg_effect()),
        plain_value(word_true()),
        plain_value(word_false()),
        key_fps() != key_glow(),
        key_fps() != key_bg_effect(),
        key_fps() != key_color_preset(),
        key_glow() != key_bg_effect(),
        key_glow() != key_color_preset(),
        key_bg_effect() != key_color_preset(),
        word_true() != word_false(),
{
    assert(key_fps().len() != key_glow().len());
}

proof fn lemma_decimal_plain(n: nat)
    ensures
        plain_value(decimal(n)),
{
    lemma_decimal(n);
    let s = decimal(n);
    assert(!is_space(s[s.len() - 1]));
}

proof fn lemma_line_no_feed(key: Seq<char>, value: Seq<char>)
    requires
        plain_value(key),
        plain_value(value),
    ensures
        forall|k: int| 0 <= k < setting_line(key, value).len() ==> setting_line(key, value)[k]
            != '\n',
{
    let l = setting_line(key, value);
    assert forall|k: int| 0 <= k < l.len() implies l[k] != '\n' by {
        if k < key.len() {
            assert(l[k] == key[k]);
        } else if k > key.len() {
            assert(l[k] == value[k - key.len() - 1]);
        }
    }
}

proof fn lemma_fps_line(st: AppState, n: u32)
    ensures
        apply_setting(st, setting_line(key_fps(), decimal(n as nat))) == (AppState { fps: n, ..st }),
{
    lemma_keys();
    lemma_decimal_plain(n as nat);
    lemma_parse_decimal(n as nat, u32::MAX as nat);
    lemma_plain_line(st, key_fps(), decimal(n as nat));
}

proof fn lemma_glow_line(st: AppState, n: u8)
    ensures
        apply_setting(st, setting_line(key_glow(), decimal(n as nat))) == (AppState { glow: n, ..st }),
{
    lemma_keys();
    lemma_decimal_plain(n as nat);
    lemma_parse_decimal(n as nat, u8::MAX as nat);
    lemma_plain_line(st, key_glow(), decimal(n as nat));
}

proof fn lemma_bg_line(st: AppState, b: bool)
    ensures
        apply_setting(st, setting_line(key_bg_effect(), bool_text(b))) == (AppState {
            bg_effect_enabled: b,
            ..st
        }),
{
    lemma_keys();
    lemma_plain_line(st, key_bg_effect(), bool_text(b));
    assert(parse_bool(bool_text(b)) == Some(b));
}

proof fn lemma_preset_line(st: AppState, p: ColorPreset)
    ensures
        apply_setting(st, setting_line(key_color_preset(), preset_name(p))) == (AppState {
            color_preset: p,
            ..st
        }),
{
    lemma_keys();
    lemma_preset_names(p);
    lemma_plain_line(st, key_color_preset(), preset_name(p));
}

proof fn lemma_settings_lines(s: AppState)
    ensures
        lines_of(settings_text(s)) == seq![
            setting_line(key_color_preset(), preset_name(s.color_preset)),
            setting_line(key_fps(), decimal(s.fps as nat)),
            setting_line(key_glow(), decimal(s.glow as nat)),
            setting_line(key_bg_effect(), bool_text(s.bg_effect_enabled)),
        ],
{
    let l1 = setting_line(key_color_preset(), preset_name(s.color_preset));
    let l2 = setting_line(key_fps(), decimal(s.fps as nat));
    let l3 = setting_line(key_glow(), decimal(s.glow as nat));
    let l4 = setting_line(key_bg_effect(), bool_text(s.bg_effect_enabled));
    let nl = seq!['\n'];
    let e = Seq::<char>::empty();
    lemma_keys();
    lemma_preset_names(s.color_preset);
    lemma_decimal_plain(s.fps as nat);
    lemma_decimal_plain(s.glow as nat);
    lemma_line_no_feed(key_color_preset(), preset_name(s.color_preset));
    lemma_line_no_feed(key_fps(), decimal(s.fps as nat));
    lemma_line_no_feed(key_glow(), decimal(s.glow as nat));
    lemma_line_no_feed(key_bg_effect(), bool_text(s.bg_effect_enabled));
    let t4 = l4 + nl + e;
    let t3 = l3 + nl + t4;
    let t2 = l2 + nl + t3;
    let t1 = l1 + nl + t2;
    assert(t1 =~= settings_text(s));
    lemma_lines_concat(l4, e);
    lemma_lines_concat(l3, t4);
    lemma_lines_concat(l2, t3);
    lemma_lines_concat(l1, t2);
    assert(lines_of(e) == Seq::<Seq<char>>::empty());
    assert(lines_of(t1) =~= seq![l1, l2, l3, l4]);
}

/// Law: a saved settings file loads back to the preset, frame rate, glow
/// and background-effect switch it was saved with; every other field of the
/// loaded state takes its start-up value.
pub proof fn law_saved_settings_load_back(s: AppState)
    ensures
        settings_from_text(settings_text(s)) == (AppState {
            color_preset: s.color_preset,
            fps: s.fps,
            glow: s.glow,
            bg_effect_enabled: s.bg_effect_enabled,
            ..default_state()
        }),
{
    let l1 = setting_line(key_color_preset(), preset_name(s.color_preset));
    let l2 = setting_line(key_fps(), decimal(s.fps as nat));
    let l3 = setting_line(key_glow(), decimal(s.glow as nat));
    let l4 = setting_line(key_bg_effect(), bool_text(s.bg_effect_enabled));
    lemma_settings_lines(s);
    let st0 = default_state();
    let a1 = apply_setting(st0, l1);
    lemma_preset_line(st0, s.color_preset);
    let a2 = apply_setting(a1, l2);
    lemma_fps_line(a1, s.fps);
    let a3 = apply_setting(a2, l3);
    lemma_glow_line(a2, s.glow);
    let a4 = apply_setting(a3, l4);
    lemma_bg_line(a3, s.bg_effect_enabled);
    let lines = seq![l1, l2, l3, l4];
    assert(lines.drop_first() =~= seq![l2, l3, l4]);
    assert(seq![l2, l3, l4].drop_first() =~= seq![l3, l4]);
    assert(seq![l3, l4].drop_first() =~= seq![l4]);
    assert(seq![l4].drop_first() =~= Seq::<Seq<char>>::empty());
    assert(apply_settings(a4, Seq::<Seq<char>>::empty()) == a4);
    assert(apply_settings(a3, seq![l4]) == a4);
    assert(apply_settings(a2, seq![l3, l4]) == a4);
    assert(apply_settings(a1, seq![l2, l3, l4]) == a4);
    assert(apply_settings(st0, lines) == a4);
}

/// Law: a colour preset line whose value is no preset's name selects
/// `AtomicStarlink` and changes nothing else. (The value is non-empty,
/// without `=` or line feed, and has no white space at its ends.)
pub proof fn law_unknown_preset_name(st: AppState, v: Seq<char>)
    requires
        plain_value(v),
        forall|p: ColorPreset| preset_name(p) != v,
    ensures
        apply_setting(st, seq!['c', 'o', 'l', 'o', 'r', '_', 'p', 'r', 'e', 's', 'e', 't', '='] + v)
            == (AppState { color_preset: ColorPreset::AtomicStarlink, ..st }),
{
    lemma_keys();
    lemma_plain_line(st, key_color_preset(), v);
    assert(setting_line(key_color_preset(), v) =~= seq![
        'c', 'o', 'l', 'o', 'r', '_', 'p', 'r', 'e', 's', 'e', 't', '=',
    ] + v);
    assert(preset_name(ColorPreset::Cyberpunk) != v);
    assert(preset_name(ColorPreset::AcidGreen) != v);
    assert(preset_name(ColorPreset::SolarFlame) != v);
    assert(preset_name(ColorPreset::DeepOcean) != v);
    assert(preset_name(ColorPreset::EmeraldPulse) != v);
    assert(preset_name(ColorPreset::CrimsonNova) != v);
    assert(preset_name(ColorPreset::VioletNight) != v);
    assert(preset_name(ColorPreset::AmberGhost) != v);
    assert(preset_name(ColorPreset::FrostByte) != v);
}

/// Law: a frame rate or glow line whose value does not start with a digit
/// or `+` is no number and leaves the state as it was.
pub proof fn law_non_number_keeps_state(st: AppState, v: Seq<char>)
    requires
        plain_value(v),
        !is_digit(v[0]),
        v[0] != '+',
    ensures
        apply_setting(st, seq!['f', 'p', 's', '='] + v) == st,
        apply_setting(st, seq!['g', 'l', 'o', 'w', '='] + v) == st,
{
    lemma_keys();
    lemma_plain_line(st, key_fps(), v);
    lemma_plain_line(st, key_glow(), v);
    assert(setting_line(key_fps(), v) =~= seq!['f', 'p', 's', '='] + v);
    assert(setting_line(key_glow(), v) =~= seq!['g', 'l', 'o', 'w', '='] + v);
    assert(!crate::text::all_digits(v));
}

/// Law: a background-effect line whose value is neither `true` nor `false`
/// leaves the state as it was.
pub proof fn law_non_bool_keeps_state(st: AppState, v: Seq<char>)
    requires
        plain_value(v),
        v != seq!['t', 'r', 'u', 'e'],
        v != seq!['f', 'a', 'l', 's', 'e'],
    ensures
        apply_setting(
            st,
            seq![
                'b', 'g', '_', 'e', 'f', 'f', 'e', 'c', 't', '_', 'e', 'n', 'a', 'b', 'l', 'e', 'd',
                '=',
            ] + v,
        ) == st,
{
    lemma_keys();
    lemma_plain_line(st, key_bg_effect(), v);
    assert(setting_line(key_bg_effect(), v) =~= seq![
        'b', 'g', '_', 'e', 'f', 'f', 'e', 'c', 't', '_', 'e', 'n', 'a', 'b', 'l', 'e', 'd', '=',
    ] + v);
}

} // verus!
