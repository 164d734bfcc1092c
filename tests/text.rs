use bgpkit_api::calendar::parse_i64;
use bgpkit_api::text::{decimal_text, has_text, split_text, trim_class, CharClass};

#[test]
fn split_keeps_empty_pieces() {
    assert_eq!(split_text("a,b,,c", ','), vec!["a", "b", "", "c"]);
    assert_eq!(split_text("", ','), vec![""]);
    assert_eq!(split_text(",", ','), vec!["", ""]);
}

#[test]
fn trim_removes_class_at_both_ends() {
    assert_eq!(trim_class("  rrc00 \t", CharClass::Whitespace), "rrc00");
    assert_eq!(trim_class("[2022-01-01,2022-01-10)", CharClass::AsciiPunctuation), "2022-01-01,2022-01-10");
    assert_eq!(trim_class("\u{3000}x y\u{a0}", CharClass::Whitespace), "x y");
    assert_eq!(trim_class("   ", CharClass::Whitespace), "");
}

#[test]
fn substring_search() {
    assert!(has_text("rrc00", "rrc"));
    assert!(has_text("xrrc", "rrc"));
    assert!(!has_text("route-views2", "rrc"));
    assert!(!has_text("rr", "rrc"));
    assert!(has_text("abc", ""));
}

#[test]
fn numbers_in_decimal() {
    assert_eq!(decimal_text(0), "0");
    assert_eq!(decimal_text(13335), "13335");
    assert_eq!(decimal_text(u64::MAX), "18446744073709551615");
}

#[test]
fn integers_are_read_like_from_str() {
    for t in ["0", "+7", "-7", "0042", "9223372036854775807", "-9223372036854775808", "", "+", "-", " 1", "1 ", "1e3", "9223372036854775808", "-9223372036854775809", "99999999999999999999999"] {
        assert_eq!(parse_i64(t), t.parse::<i64>().ok(), "{}", t);
    }
}
