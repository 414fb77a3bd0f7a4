use woof::num::{parse_u32, parse_u64, u32_to_string, u64_to_string};
use woof::tus::Version;

#[test]
fn version_creation_with_valid_string() {
    let version = Version::new("1.2.3");
    assert!(version.is_ok());
    let version = version.unwrap();
    assert_eq!(version.major, 1);
    assert_eq!(version.minor, 2);
    assert_eq!(version.patch, 3);
}

#[test]
fn version_creation_with_invalid_string() {
    let version = Version::new("1.2");
    assert!(version.is_err());
}

#[test]
fn version_display_format() {
    let version = Version::new("1.2.3").unwrap();
    assert_eq!(version.display_string(), "1.2.3");
}

#[test]
fn version_accepts_what_the_integer_parser_accepts() {
    // Rust's u32 parsing takes an optional plus sign and leading zeros.
    let version = Version::new("+1.02.003").unwrap();
    assert_eq!(version.major, 1);
    assert_eq!(version.minor, 2);
    assert_eq!(version.patch, 3);
}

#[test]
fn version_rejects_empty_segments_and_overflow() {
    assert!(Version::new("1..3").is_err());
    assert!(Version::new("").is_err());
    assert!(Version::new("1.2.3.4").is_err());
    assert!(Version::new("4294967296.0.0").is_err());
    assert!(Version::new("4294967295.0.0").is_ok());
}

#[test]
fn version_error_messages_name_the_failing_segment() {
    assert_eq!(Version::new("1.2").unwrap_err(), "Invalid version string format");
    assert_eq!(Version::new("x.2.3").unwrap_err(), "Invalid major version");
    assert_eq!(Version::new("1.x.3").unwrap_err(), "Invalid minor version");
    assert_eq!(Version::new("1.2.x").unwrap_err(), "Invalid patch version");
}

#[test]
fn parse_u32_matches_rust_semantics() {
    assert_eq!(parse_u32("0"), Some(0));
    assert_eq!(parse_u32("+123"), Some(123));
    assert_eq!(parse_u32("007"), Some(7));
    assert_eq!(parse_u32("4294967295"), Some(u32::MAX));
    assert_eq!(parse_u32("4294967296"), None);
    assert_eq!(parse_u32(""), None);
    assert_eq!(parse_u32("+"), None);
    assert_eq!(parse_u32("-1"), None);
    assert_eq!(parse_u32("1 2"), None);
}

#[test]
fn parse_u64_matches_rust_semantics() {
    assert_eq!(parse_u64("18446744073709551615"), Some(u64::MAX));
    assert_eq!(parse_u64("18446744073709551616"), None);
    assert_eq!(parse_u64("42"), Some(42));
}

#[test]
fn integer_formatting_is_canonical() {
    assert_eq!(u64_to_string(0), "0");
    assert_eq!(u64_to_string(7), "7");
    assert_eq!(u64_to_string(10400), "10400");
    assert_eq!(u64_to_string(u64::MAX), "18446744073709551615");
    assert_eq!(u32_to_string(4294967295), "4294967295");
}

#[test]
fn version_display_then_parse_round_trips() {
    let v = Version { major: 10, minor: 0, patch: 207 };
    let parsed = Version::new(&v.display_string()).unwrap();
    assert_eq!(parsed, v);
}
