//! The size parser and the name validator on their own.

use managesieve::name::validate_name;
use managesieve::numbers::{parse_size, MAX_CANDIDATE_SIZE};

#[test]
fn parses_plain_numbers() {
    assert_eq!(parse_size("0"), Some(0));
    assert_eq!(parse_size("500"), Some(500));
    assert_eq!(parse_size("999999999"), Some(999999999));
}

#[test]
fn accepts_leading_zeros() {
    assert_eq!(parse_size("018"), Some(18));
    assert_eq!(parse_size("00000000000000000000001"), Some(1));
}

#[test]
fn rejects_empty_and_non_digits() {
    assert_eq!(parse_size(""), None);
    assert_eq!(parse_size("abc"), None);
    assert_eq!(parse_size("12a"), None);
    assert_eq!(parse_size("a12"), None);
    assert_eq!(parse_size("+5"), None);
    assert_eq!(parse_size("-5"), None);
    assert_eq!(parse_size("1 2"), None);
    assert_eq!(parse_size("1.5"), None);
}

#[test]
fn bounds_absurd_sizes() {
    assert_eq!(parse_size("9223372036854775807"), Some(MAX_CANDIDATE_SIZE));
    assert_eq!(parse_size("9223372036854775808"), None);
    assert_eq!(parse_size("99999999999999999999999999999999999"), None);
}

#[test]
fn accepts_ordinary_names() {
    assert!(validate_name("script1").is_ok());
    assert!(validate_name("holiday reply").is_ok());
    assert!(validate_name("déjà-vu").is_ok());
}

#[test]
fn validated_name_keeps_its_text() {
    let name = validate_name("script1").unwrap();
    assert_eq!(name.as_str(), "script1");
}

#[test]
fn rejects_empty_name() {
    assert!(validate_name("").is_err());
}

#[test]
fn bounds_name_length() {
    let longest = "a".repeat(512);
    assert!(validate_name(&longest).is_ok());
    let too_long = "a".repeat(513);
    assert!(validate_name(&too_long).is_err());
}

#[test]
fn rejects_reserved_delimiters() {
    for bad in ["bad/name", "bad\"name", "bad\\name", "bad{name", "bad}name"] {
        assert!(validate_name(bad).is_err(), "{bad} should be rejected");
    }
}

#[test]
fn rejects_control_characters() {
    assert!(validate_name("bad\tname").is_err());
    assert!(validate_name("bad\r\nname").is_err());
    assert!(validate_name("bad\u{7f}name").is_err());
}
