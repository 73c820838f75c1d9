use kiwi_admin::numeric::div_ceil_u32;
use kiwi_admin::numeric::format_u32;
use kiwi_admin::numeric::parse_u32;

#[test]
fn format_renders_decimal() {
    assert_eq!(format_u32(0), "0");
    assert_eq!(format_u32(7), "7");
    assert_eq!(format_u32(10), "10");
    assert_eq!(format_u32(42), "42");
    assert_eq!(format_u32(1009), "1009");
    assert_eq!(format_u32(u32::MAX), "4294967295");
}

#[test]
fn parse_accepts_what_from_str_accepts() {
    assert_eq!(parse_u32("0"), Some(0));
    assert_eq!(parse_u32("007"), Some(7));
    assert_eq!(parse_u32("+5"), Some(5));
    assert_eq!(parse_u32("4294967295"), Some(u32::MAX));
    assert_eq!(parse_u32(""), None);
    assert_eq!(parse_u32("+"), None);
    assert_eq!(parse_u32("-1"), None);
    assert_eq!(parse_u32("abc"), None);
    assert_eq!(parse_u32("123abc"), None);
    assert_eq!(parse_u32("4294967296"), None);
    assert_eq!(parse_u32("99999999999999999999"), None);
    assert_eq!(parse_u32(" 5"), None);
}

#[test]
fn parse_matches_std() {
    for s in ["0", "007", "+5", "", "+", "-1", "abc", "123abc", "4294967295", "4294967296"] {
        assert_eq!(parse_u32(s), s.parse::<u32>().ok(), "input {:?}", s);
    }
}

#[test]
fn format_then_parse_round_trips() {
    for n in [0, 1, 9, 10, 99, 100, 12345, u32::MAX] {
        assert_eq!(parse_u32(&format_u32(n)), Some(n));
    }
}

#[test]
fn ceiling_division() {
    assert_eq!(div_ceil_u32(0, 10), 0);
    assert_eq!(div_ceil_u32(1, 10), 1);
    assert_eq!(div_ceil_u32(10, 10), 1);
    assert_eq!(div_ceil_u32(11, 10), 2);
    assert_eq!(div_ceil_u32(100, 10), 10);
    assert_eq!(div_ceil_u32(u32::MAX, 1), u32::MAX);
}
