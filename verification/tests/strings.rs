//! Tests for the string utilities.

use litemon::strutil::parse_u64;
use litemon::strutil::split_and_trim;
use litemon::strutil::str_starts_with;
use litemon::strutil::trim;
use litemon::strutil::u64_to_dec;

#[test]
fn split_and_trim_basic() {
    assert_eq!(split_and_trim("eth0, lo"), vec!["eth0", "lo"]);
    assert_eq!(split_and_trim("a,b,c"), vec!["a", "b", "c"]);
}

#[test]
fn split_and_trim_edges() {
    // no comma: one piece
    assert_eq!(split_and_trim("only"), vec!["only"]);
    // empty string: one empty piece
    assert_eq!(split_and_trim(""), vec![""]);
    // empty pieces survive as empty strings
    assert_eq!(split_and_trim("a,,b"), vec!["a", "", "b"]);
    assert_eq!(split_and_trim(",x"), vec!["", "x"]);
}

#[test]
fn trim_removes_surrounding_whitespace() {
    assert_eq!(trim("  hello \t"), "hello");
    assert_eq!(trim("inner space kept"), "inner space kept");
    assert_eq!(trim(" \t\r\n"), "");
    assert_eq!(trim(""), "");
}

#[test]
fn parse_u64_accepts_digits_only() {
    assert_eq!(parse_u64("1234"), Some(1234));
    assert_eq!(parse_u64("0"), Some(0));
    assert_eq!(parse_u64(""), None);
    assert_eq!(parse_u64("12x"), None);
    assert_eq!(parse_u64("-3"), None);
    assert_eq!(parse_u64("18446744073709551615"), Some(u64::MAX));
    assert_eq!(parse_u64("18446744073709551616"), None);
}

#[test]
fn u64_to_dec_renders_decimal() {
    assert_eq!(u64_to_dec(0), "0");
    assert_eq!(u64_to_dec(7), "7");
    assert_eq!(u64_to_dec(1234), "1234");
    assert_eq!(u64_to_dec(u64::MAX), "18446744073709551615");
}

#[test]
fn round_trip_dec() {
    for n in [0u64, 1, 9, 10, 99, 100, 123456789, u64::MAX] {
        assert_eq!(parse_u64(&u64_to_dec(n)), Some(n));
    }
}

#[test]
fn starts_with_by_characters() {
    assert!(str_starts_with("/dev/sda1", "/dev/"));
    assert!(!str_starts_with("/dev", "/dev/"));
    assert!(str_starts_with("anything", ""));
    assert!(!str_starts_with("/proc/x", "/sys"));
}
