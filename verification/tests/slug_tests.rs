use woof::slug::{SlugError, SlugString};

#[test]
fn slug_string_is_valid_returns_true_for_valid_slug() {
    assert!(SlugString::is_valid("this-is-a-slug"));
}

#[test]
fn slug_string_is_valid_returns_false_for_invalid_slug() {
    assert!(!SlugString::is_valid("thisisaslug"));
}

#[test]
fn slug_string_is_valid_returns_false_for_empty_slug() {
    assert!(!SlugString::is_valid(""));
}

#[test]
fn slug_string_is_valid_returns_false_for_slug_with_extra_dashes() {
    assert!(!SlugString::is_valid("this--is-a-slug"));
}

#[test]
fn slug_string_is_valid_returns_false_for_slug_with_less_than_four_words() {
    assert!(!SlugString::is_valid("this-is-slug"));
}

#[test]
fn slug_string_is_valid_returns_false_for_slug_with_more_than_four_words() {
    assert!(!SlugString::is_valid("this-is-a-very-long-slug"));
}

#[test]
fn slug_new_accepts_a_valid_slug() {
    assert!(SlugString::new("this-is-a-slug").is_ok());
}

#[test]
fn slug_new_reports_the_offending_input() {
    match SlugString::new("not a slug") {
        Err(SlugError::InvalidFormat(s)) => assert_eq!(s, "not a slug"),
        _ => panic!("expected the invalid-format error"),
    }
}

#[test]
fn slug_string_is_valid_rejects_leading_and_trailing_dashes() {
    assert!(!SlugString::is_valid("-this-is-slug"));
    assert!(!SlugString::is_valid("this-is-slug-"));
}
