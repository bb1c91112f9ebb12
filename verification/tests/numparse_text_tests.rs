use grite::numparse::parse_u64;
use grite::text::{
    byte_prefix, clipped_prefix, contains_str, decimal_string, ends_with_char, same_text,
    starts_with_str,
};

#[test]
fn parse_u64_follows_std() {
    for s in ["0", "42", "+7", "18446744073709551615", "007", "", "+", "-1", " 1", "1a", "18446744073709551616"] {
        assert_eq!(parse_u64(s), s.parse::<u64>().ok(), "input {:?}", s);
    }
}

#[test]
fn decimal_strings() {
    assert_eq!(decimal_string(0), "0");
    assert_eq!(decimal_string(1234567890), "1234567890");
    assert_eq!(decimal_string(u64::MAX), u64::MAX.to_string());
}

#[test]
fn text_helpers() {
    assert!(contains_str("abc ## Grite x", "## Grite"));
    assert!(!contains_str("## Grit", "## Grite"));
    assert!(contains_str("anything", ""));
    assert!(starts_with_str("**ID:** 1", "**ID:**"));
    assert!(!starts_with_str("*", "**ID:**"));
    assert!(same_text("open", "open"));
    assert!(!same_text("open", "opened"));
    assert!(ends_with_char("line\n", '\n'));
    assert!(!ends_with_char("", '\n'));
    assert_eq!(byte_prefix("abcdefghij", 8), "abcdefgh");
    assert_eq!(clipped_prefix("abc", 8), "abc");
    assert_eq!(clipped_prefix("0123456789", 8), "01234567");
}
