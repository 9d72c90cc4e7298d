//! UTF-16 text for the Win32 API: encoding names for calls, decoding
//! paths and class names that the API hands back.
use vstd::prelude::*;
use crate::text::{chars_of, trim, trim_bounds, string_of};

verus! {

broadcast use vstd::string::group_string_axioms;

/// Whether `u` is the code of a `char`: at most `0x10FFFF` and not a
/// surrogate.
pub open spec fn is_scalar(u: u32) -> bool {
    u <= 0x10FFFF && !(0xD800 <= u <= 0xDFFF)
}

/// `char::from_u32` gives the character with code `i`, or `None` when `i`
/// is not the code of a character.
pub assume_specification[ char::from_u32 ](i: u32) -> (r: Option<char>)
    ensures
        is_scalar(i) ==> r == Some(i as char),
        !is_scalar(i) ==> r is None,
;

/// The UTF-16 code units of one character.
pub open spec fn utf16_char(c: char) -> Seq<u16> {
    let u = c as u32;
    if u < 0x10000 {
        seq![u as u16]
    } else {
        seq![
            (0xD800 + (u - 0x10000) / 0x400) as u16,
            (0xDC00 + (u - 0x10000) % 0x400) as u16,
        ]
    }
}

/// The UTF-16 encoding of `s`.
pub open spec fn utf16_of(s: Seq<char>) -> Seq<u16>
    decreases s.len(),
{
    if s.len() == 0 {
        Seq::empty()
    } else {
        utf16_char(s[0]) + utf16_of(s.drop_first())
    }
}

pub open spec fn is_high_surrogate(u: u16) -> bool {
    0xD800 <= u <= 0xDBFF
}

pub open spec fn is_low_surrogate(u: u16) -> bool {
    0xDC00 <= u <= 0xDFFF
}

/// What `String::from_utf16_lossy` makes of `u`: a high surrogate followed
/// by a low one gives the character they encode, any other surrogate gives
/// U+FFFD, and every other unit the character with its code.
pub open spec fn decode_utf16_lossy(u: Seq<u16>) -> Seq<char>
    decreases u.len(),
{
    if u.len() == 0 {
        Seq::empty()
    } else if u.len() >= 2 && is_high_surrogate(u[0]) && is_low_surrogate(u[1]) {
        seq![((0x10000 + (u[0] - 0xD800) * 0x400 + (u[1] - 0xDC00)) as u32) as char]
            + decode_utf16_lossy(u.subrange(2, u.len() as int))
    } else if is_high_surrogate(u[0]) || is_low_surrogate(u[0]) {
        seq!['\u{FFFD}'] + decode_utf16_lossy(u.drop_first())
    } else {
        seq![(u[0] as u32) as char] + decode_utf16_lossy(u.drop_first())
    }
}

/// The NUL-terminated UTF-16 form of `s` that Win32 calls take.
pub fn to_wide(s: &str) -> (w: Vec<u16>)
    ensures
        w@ == utf16_of(s@).push(0),
{
    let v = chars_of(s);
    let mut w: Vec<u16> = Vec::new();
    let mut i: usize = 0;
    assert(v@.subrange(0, v@.len() as int) =~= v@);
    while i < v.len()
        invariant
            i <= v@.len(),
            v@ == s@,
            utf16_of(s@) == w@ + utf16_of(v@.subrange(i as int, v@.len() as int)),
        decreases v.len() - i,
    {
        let c = v[i];
        let u = c as u32;
        let ghost rest = v@.subrange(i as int, v@.len() as int);
        assert(rest.drop_first() =~= v@.subrange(i + 1, v@.len() as int));
        assert(rest[0] == c);
        if u < 0x10000 {
            w.push(u as u16);
            assert(utf16_char(c) =~= seq![u as u16]);
        } else {
            let x = u - 0x10000;
            w.push((0xD800 + x / 0x400) as u16);
            w.push((0xDC00 + x % 0x400) as u16);
            assert(utf16_char(c) =~= seq![(0xD800 + x / 0x400) as u16, (0xDC00 + x % 0x400) as u16]);
        }
        proof {
            let prev = w@.subrange(0, w@.len() - utf16_char(c).len());
            assert(w@ =~= prev + utf16_char(c));
        }
        assert(utf16_of(s@) =~= w@ + utf16_of(v@.subrange(i + 1, v@.len() as int)));
        i += 1;
    }
    assert(v@.subrange(v@.len() as int, v@.len() as int) =~= Seq::<char>::empty());
    assert(utf16_of(s@) =~= w@);
    w.push(0);
    w
}

/// `String::from_utf16_lossy`: the text of the UTF-16 units `u`.
pub fn from_utf16_lossy(u: &[u16]) -> (s: String)
    ensures
        s@ == decode_utf16_lossy(u@),
{
    let mut out: Vec<char> = Vec::new();
    let n = u.len();
    let mut i: usize = 0;
    assert(u@.subrange(0, n as int) =~= u@);
    while i < n
        invariant
            i <= n == u@.len(),
            decode_utf16_lossy(u@) == out@ + decode_utf16_lossy(u@.subrange(i as int, n as int)),
        decreases n - i,
    {
        let ghost rest = u@.subrange(i as int, n as int);
        let a = u[i];
        if i + 1 < n && 0xD800 <= a && a <= 0xDBFF && 0xDC00 <= u[i + 1] && u[i + 1] <= 0xDFFF {
            let b = u[i + 1];
            let code: u32 = 0x10000 + ((a - 0xD800) as u32) * 0x400 + ((b - 0xDC00) as u32);
            assert(rest.subrange(2, rest.len() as int) =~= u@.subrange(i + 2, n as int));
            match char::from_u32(code) {
                Some(c) => out.push(c),
                None => out.push('\u{FFFD}'),
            }
            assert(decode_utf16_lossy(u@) =~= out@ + decode_utf16_lossy(u@.subrange(i + 2, n as int)));
            i += 2;
        } else if 0xD800 <= a && a <= 0xDFFF {
            out.push('\u{FFFD}');
            assert(rest.drop_first() =~= u@.subrange(i + 1, n as int));
            assert(decode_utf16_lossy(u@) =~= out@ + decode_utf16_lossy(u@.subrange(i + 1, n as int)));
            i += 1;
        } else {
            let code: u32 = a as u32;
            match char::from_u32(code) {
                Some(c) => out.push(c),
                None => out.push('\u{FFFD}'),
            }
            assert(rest.drop_first() =~= u@.subrange(i + 1, n as int));
            assert(decode_utf16_lossy(u@) =~= out@ + decode_utf16_lossy(u@.subrange(i + 1, n as int)));
            i += 1;
        }
    }
    assert(u@.subrange(n as int, n as int) =~= Seq::<u16>::empty());
    assert(decode_utf16_lossy(u@) =~= out@);
    string_of(out.as_slice())
}

proof fn lemma_decode_char(c: char, rest: Seq<u16>)
    ensures
        decode_utf16_lossy(utf16_char(c) + rest) == seq![c] + decode_utf16_lossy(rest),
{
    let u = c as u32;
    let s = utf16_char(c) + rest;
    if u < 0x10000 {
        assert(s.drop_first() =~= rest);
        assert(!(0xD800 <= u <= 0xDFFF));
        assert(((u as u16) as u32) as char == c);
    } else {
        let x = u - 0x10000;
        let hi = (0xD800 + x / 0x400) as u16;
        let lo = (0xDC00 + x % 0x400) as u16;
        assert(s[0] == hi && s[1] == lo);
        assert(s.subrange(2, s.len() as int) =~= rest);
        assert(0x10000 + (hi - 0xD800) * 0x400 + (lo - 0xDC00) == u);
    }
}

/// Law: decoding what `to_wide` encodes, without its terminating NUL, gives
/// the text back.
pub proof fn law_utf16_round_trip(s: Seq<char>)
    ensures
        decode_utf16_lossy(utf16_of(s)) == s,
    decreases s.len(),
{
    if s.len() > 0 {
        law_utf16_round_trip(s.drop_first());
        lemma_decode_char(s[0], utf16_of(s.drop_first()));
        assert(seq![s[0]] + s.drop_first() =~= s);
    }
}

/// The units before the first NUL of `buf` (all of them when there is none).
pub open spec fn until_nul(buf: Seq<u16>) -> Seq<u16>
    decreases buf.len(),
{
    if buf.len() == 0 {
        Seq::empty()
    } else if buf[0] == 0 {
        Seq::empty()
    } else {
        seq![buf[0]] + until_nul(buf.drop_first())
    }
}

/// The text that a NUL-terminated UTF-16 buffer from the API holds, or
/// `None` when it is empty or only white space.
pub open spec fn text_from_wide(buf: Seq<u16>) -> Option<Seq<char>> {
    let t = decode_utf16_lossy(until_nul(buf));
    if trim(t).len() == 0 {
        None
    } else {
        Some(t)
    }
}

/// The text that a NUL-terminated UTF-16 buffer from the API holds (such as
/// the wallpaper path), or `None` when it is empty or only white space.
pub fn text_from_wide_buffer(buf: &[u16]) -> (r: Option<String>)
    ensures
        match text_from_wide(buf@) {
            Some(t) => r is Some && r->0@ == t,
            None => r is None,
        },
{
    let mut units: Vec<u16> = Vec::new();
    let mut i: usize = 0;
    assert(buf@.subrange(0, buf@.len() as int) =~= buf@);
    while i < buf.len() && buf[i] != 0
        invariant
            i <= buf@.len(),
            until_nul(buf@) == units@ + until_nul(buf@.subrange(i as int, buf@.len() as int)),
        decreases buf.len() - i,
    {
        let ghost rest = buf@.subrange(i as int, buf@.len() as int);
        assert(rest.drop_first() =~= buf@.subrange(i + 1, buf@.len() as int));
        units.push(buf[i]);
        assert(until_nul(buf@) =~= units@ + until_nul(buf@.subrange(i + 1, buf@.len() as int)));
        i += 1;
    }
    assert(until_nul(buf@.subrange(i as int, buf@.len() as int)) =~= Seq::<u16>::empty());
    assert(until_nul(buf@) =~= units@);
    let text = from_utf16_lossy(units.as_slice());
    let chars = chars_of(text.as_str());
    let (a, b) = trim_bounds(chars.as_slice(), 0, chars.len());
    assert(chars@.subrange(0, chars@.len() as int) =~= chars@);
    if a == b {
        None
    } else {
        Some(text)
    }
}

} // verus!
