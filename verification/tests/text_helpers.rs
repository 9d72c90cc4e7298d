use starcore::text::{
    char_is_digit, char_is_space, chars_of, digit_value, find_char, format_decimal,
    parse_bool_range, parse_unsigned_range, push_chars, push_decimal, range_is, string_of,
    string_of_range, trim_bounds,
};

#[test]
fn chars_and_strings_round_trip() {
    let v = chars_of("héllo ✓");
    assert_eq!(v, vec!['h', 'é', 'l', 'l', 'o', ' ', '✓']);
    assert_eq!(string_of(&v), "héllo ✓");
    assert_eq!(string_of_range(&v, 1, 4), "éll");
    assert_eq!(string_of_range(&v, 3, 3), "");
}

#[test]
fn push_chars_appends() {
    let mut out = vec!['a'];
    push_chars(&mut out, &['b', 'c']);
    assert_eq!(out, vec!['a', 'b', 'c']);
}

#[test]
fn decimal_text_matches_to_string() {
    for n in [0u64, 7, 10, 99, 1000, 4294967295, u64::MAX] {
        assert_eq!(format_decimal(n), n.to_string());
    }
    let mut out = vec!['x'];
    push_decimal(&mut out, 305);
    assert_eq!(out, vec!['x', '3', '0', '5']);
}

#[test]
fn white_space_matches_std() {
    for c in [' ', '\t', '\n', '\r', '\u{0B}', '\u{0C}', '\u{85}', '\u{A0}', '\u{1680}', '\u{2000}',
        '\u{200A}', '\u{2028}', '\u{2029}', '\u{202F}', '\u{205F}', '\u{3000}', 'a', '0', '\u{200B}',
        '\u{FEFF}', '_']
    {
        assert_eq!(char_is_space(c), c.is_whitespace(), "{:?}", c);
    }
}

#[test]
fn trim_bounds_matches_str_trim() {
    let v = chars_of("  ab c \t");
    let (a, b) = trim_bounds(&v, 0, v.len());
    assert_eq!(string_of_range(&v, a, b), "ab c");
    let v = chars_of("   ");
    let (a, b) = trim_bounds(&v, 0, v.len());
    assert_eq!(a, b);
    let v = chars_of("x  y  z");
    let (a, b) = trim_bounds(&v, 1, 5);
    assert_eq!((a, b), (3, 4));
}

#[test]
fn find_char_first_or_end() {
    let v = chars_of("a=b=c");
    assert_eq!(find_char(&v, 0, 5, '='), 1);
    assert_eq!(find_char(&v, 2, 5, '='), 3);
    assert_eq!(find_char(&v, 4, 5, '='), 5);
}

#[test]
fn range_is_compares_words() {
    let v = chars_of("xfpsy");
    assert!(range_is(&v, 1, 4, &['f', 'p', 's']));
    assert!(!range_is(&v, 1, 5, &['f', 'p', 's']));
    assert!(!range_is(&v, 0, 3, &['f', 'p', 's']));
}

#[test]
fn unsigned_parse_matches_std() {
    for s in ["0", "65535", "65536", "+12", "-1", "", "+", "1 2", "007", "12a"] {
        let v = chars_of(s);
        let expected = s.parse::<u16>().ok().map(|n| n as u64);
        assert_eq!(parse_unsigned_range(&v, 0, v.len(), 0xffff), expected, "{:?}", s);
    }
    let v = chars_of("4294967295");
    assert_eq!(parse_unsigned_range(&v, 0, v.len(), 0xffff_ffff), Some(4294967295));
}

#[test]
fn bool_parse_matches_std() {
    for s in ["true", "false", "True", "1", "", " true"] {
        let v = chars_of(s);
        assert_eq!(parse_bool_range(&v, 0, v.len()), s.parse::<bool>().ok(), "{:?}", s);
    }
}

#[test]
fn digits() {
    assert!(char_is_digit('0') && char_is_digit('9'));
    assert!(!char_is_digit('a') && !char_is_digit('٣'));
    assert_eq!(digit_value('7'), 7);
}
