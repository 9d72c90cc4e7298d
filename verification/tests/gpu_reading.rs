use starcore::reading::parse_gpu_usage;

/// The reading as the float parse computes it.
fn float_reading(line: &str) -> Option<u32> {
    let trimmed = line.trim();
    if trimmed.is_empty() {
        return None;
    }
    let clean: String = trimmed.chars().filter(|c| c.is_digit(10) || *c == '.').collect();
    clean.parse::<f32>().ok().map(|v| v.clamp(0.0, 100.0) as u32)
}

#[test]
fn reading_simple_values() {
    assert_eq!(parse_gpu_usage("45"), Some(45));
    assert_eq!(parse_gpu_usage("45 %"), Some(45));
    assert_eq!(parse_gpu_usage("  0\r"), Some(0));
    assert_eq!(parse_gpu_usage("100"), Some(100));
    assert_eq!(parse_gpu_usage("37.9"), Some(37));
}

#[test]
fn reading_clamps_to_hundred() {
    assert_eq!(parse_gpu_usage("250"), Some(100));
    assert_eq!(parse_gpu_usage("99999999999999999999999999999999999999999999"), Some(100));
}

#[test]
fn reading_rejects_non_numbers() {
    assert_eq!(parse_gpu_usage(""), None);
    assert_eq!(parse_gpu_usage("   "), None);
    assert_eq!(parse_gpu_usage("N/A"), None);
    assert_eq!(parse_gpu_usage("."), None);
    assert_eq!(parse_gpu_usage("1.2.3"), None);
}

#[test]
fn reading_minus_sign_is_dropped() {
    assert_eq!(parse_gpu_usage("-5"), Some(5));
}

#[test]
fn reading_point_forms() {
    assert_eq!(parse_gpu_usage("5."), Some(5));
    assert_eq!(parse_gpu_usage(".5"), Some(0));
    assert_eq!(parse_gpu_usage("a1b2.c7"), Some(12));
}

#[test]
fn reading_float_rounding_edges() {
    assert_eq!(parse_gpu_usage("99.9999999"), Some(100));
    assert_eq!(parse_gpu_usage("0.99999997"), Some(0));
    assert_eq!(parse_gpu_usage("0.99999998"), Some(1));
    assert_eq!(parse_gpu_usage("63.999998"), Some(63));
    assert_eq!(parse_gpu_usage("63.999999"), Some(64));
}

#[test]
fn reading_agrees_with_float_parse() {
    let cases = [
        "0", "1", "12", "12.5", "99.99", "99.999999", "99.9999999", "100.0", "100.5", "0.5",
        "0.99999994", "0.99999997", "0.999999971", "0.99999998", "1.9999999", "1.99999994",
        "2.9999998", "3.99999976", "7.9999995", "15.999999", "31.999998", "31.9999981",
        "47.999997", "63.999996", "63.9999962", "64.999996", "95.999994", "95.9999962",
        "127.99999", "42 %", "x", "", "..", "007", "000.000", "12345678901234567890.5",
        " 57 ", "5.000000000000000000000001", "9.99999999999999999999",
    ];
    for c in cases {
        assert_eq!(parse_gpu_usage(c), float_reading(c), "{:?}", c);
    }
}

#[test]
fn reading_agrees_with_float_parse_on_a_grid() {
    for i in 0..=101u32 {
        for frac in ["", ".0", ".4", ".5", ".99", ".999999", ".9999999", ".99999999", ".999999999"] {
            let s = format!("{}{}", i, frac);
            assert_eq!(parse_gpu_usage(&s), float_reading(&s), "{:?}", s);
        }
    }
}
