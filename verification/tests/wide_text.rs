use starcore::wide::{from_utf16_lossy, text_from_wide_buffer, to_wide};

#[test]
fn to_wide_appends_nul() {
    assert_eq!(to_wide("Progman"), vec![80, 114, 111, 103, 109, 97, 110, 0]);
    assert_eq!(to_wide(""), vec![0]);
}

#[test]
fn to_wide_matches_encode_utf16() {
    for s in ["StarCore v0.1", "héllo", "日本", "emoji 😀 here", "NUL"] {
        let mut expected: Vec<u16> = s.encode_utf16().collect();
        expected.push(0);
        assert_eq!(to_wide(s), expected, "{:?}", s);
    }
}

#[test]
fn from_utf16_lossy_matches_std() {
    let cases: Vec<Vec<u16>> = vec![
        vec![],
        "WorkerW".encode_utf16().collect(),
        "😀x".encode_utf16().collect(),
        vec![0xD800],
        vec![0xDC00, 0x41],
        vec![0xD83D, 0x41],
        vec![0x41, 0xD83D],
        vec![0xD83D, 0xDE00, 0xDE00],
    ];
    for u in cases {
        assert_eq!(from_utf16_lossy(&u), String::from_utf16_lossy(&u), "{:?}", u);
    }
}

#[test]
fn utf16_round_trip() {
    for s in ["", "C:\\Users\\me\\wall.jpg", "ünï 😀 ✓"] {
        let w = to_wide(s);
        assert_eq!(from_utf16_lossy(&w[..w.len() - 1]), s);
    }
}

#[test]
fn wide_buffer_stops_at_nul() {
    let mut buf = [0u16; 16];
    let path: Vec<u16> = "C:\\w.png".encode_utf16().collect();
    buf[..path.len()].copy_from_slice(&path);
    buf[path.len() + 1] = 0x41;
    assert_eq!(text_from_wide_buffer(&buf), Some("C:\\w.png".to_string()));
}

#[test]
fn wide_buffer_without_nul_uses_all() {
    let buf: Vec<u16> = "abc".encode_utf16().collect();
    assert_eq!(text_from_wide_buffer(&buf), Some("abc".to_string()));
}

#[test]
fn wide_buffer_blank_is_none() {
    assert_eq!(text_from_wide_buffer(&[0u16; 8]), None);
    assert_eq!(text_from_wide_buffer(&[]), None);
    let blank: Vec<u16> = "  \t ".encode_utf16().collect();
    assert_eq!(text_from_wide_buffer(&blank), None);
}

#[test]
fn wide_buffer_keeps_surrounding_spaces() {
    let buf: Vec<u16> = " a b ".encode_utf16().collect();
    assert_eq!(text_from_wide_buffer(&buf), Some(" a b ".to_string()));
}
