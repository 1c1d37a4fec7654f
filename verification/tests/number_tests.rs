use spotify_server::number::{decimal_string, parse_u16, parse_u64, parse_unsigned_decimal};

#[test]
fn parses_plain_and_plus_signed_numbers() {
    assert_eq!(parse_u64("0"), Some(0));
    assert_eq!(parse_u64("213000"), Some(213000));
    assert_eq!(parse_u64("+42"), Some(42));
    assert_eq!(parse_u64("007"), Some(7));
}

#[test]
fn refuses_what_str_parse_refuses() {
    assert_eq!(parse_u64(""), None);
    assert_eq!(parse_u64("+"), None);
    assert_eq!(parse_u64("-"), None);
    assert_eq!(parse_u64("-1"), None);
    assert_eq!(parse_u64(" 1"), None);
    assert_eq!(parse_u64("1 "), None);
    assert_eq!(parse_u64("12a"), None);
    assert_eq!(parse_u64("++1"), None);
    assert_eq!(parse_u64("1.5"), None);
}

#[test]
fn u64_limits() {
    assert_eq!(parse_u64("18446744073709551615"), Some(u64::MAX));
    assert_eq!(parse_u64("18446744073709551616"), None);
    assert_eq!(parse_u64("99999999999999999999999"), None);
}

#[test]
fn u16_limits() {
    assert_eq!(parse_u16("65535"), Some(65535));
    assert_eq!(parse_u16("65536"), None);
    assert_eq!(parse_u16("8443"), Some(8443));
    assert_eq!(parse_unsigned_decimal("255", 255), Some(255));
    assert_eq!(parse_unsigned_decimal("256", 255), None);
}

#[test]
fn agrees_with_std_parse() {
    let samples = [
        "", "0", "+0", "-0", "1", "+1", "42", "65535", "65536", "4294967296", "abc", "1_000",
        "18446744073709551615", "18446744073709551616", "+18446744073709551615", "\u{661}\u{662}",
    ];
    for s in samples.iter() {
        assert_eq!(parse_u64(s), s.parse::<u64>().ok(), "u64 {:?}", s);
        assert_eq!(parse_u16(s), s.parse::<u16>().ok(), "u16 {:?}", s);
    }
}

#[test]
fn decimal_text() {
    assert_eq!(decimal_string(0), "0");
    assert_eq!(decimal_string(9), "9");
    assert_eq!(decimal_string(10), "10");
    assert_eq!(decimal_string(8443), "8443");
    assert_eq!(decimal_string(u64::MAX), "18446744073709551615");
}

#[test]
fn decimal_text_round_trip() {
    for n in [0u64, 1, 9, 10, 99, 100, 12345, 65535, 4294967296, u64::MAX] {
        assert_eq!(decimal_string(n), n.to_string());
        assert_eq!(parse_u64(&decimal_string(n)), Some(n));
    }
}
