use toolkit::text::{clone_optional, decimal, remove_quotes, starts_with, text_eq};

#[test]
fn numbers_are_written_in_base_ten() {
    assert_eq!(decimal(0), "0");
    assert_eq!(decimal(7), "7");
    assert_eq!(decimal(10), "10");
    assert_eq!(decimal(109), "109");
    assert_eq!(decimal(1234567890), "1234567890");
    assert_eq!(decimal(u128::MAX), u128::MAX.to_string());
}

#[test]
fn quotes_are_removed_wherever_they_stand() {
    assert_eq!(remove_quotes("\"a\"b\"\""), "ab");
    assert_eq!(remove_quotes("no quotes"), "no quotes");
    assert_eq!(remove_quotes(""), "");
    assert_eq!(remove_quotes("'single' stay"), "'single' stay");
    assert_eq!(remove_quotes("\"\u{e9}t\u{e9}\u{2705}.zip\""), "\u{e9}t\u{e9}\u{2705}.zip");
}

#[test]
fn prefix_is_compared_character_by_character() {
    assert!(starts_with("https://example.com", "http"));
    assert!(starts_with("http", "http"));
    assert!(starts_with("anything", ""));
    assert!(!starts_with("htt", "http"));
    assert!(!starts_with("HTTP://example.com", "http"));
    assert!(!starts_with("", "http"));
    assert!(starts_with("\u{e9}cole", "\u{e9}"));
    assert!(!starts_with("ecole", "\u{e9}"));
}

#[test]
fn texts_are_equal_when_their_characters_are() {
    assert!(text_eq("macos", "macos"));
    assert!(text_eq("", ""));
    assert!(!text_eq("macos", "macOS"));
    assert!(!text_eq("macos", "macos "));
}

#[test]
fn optional_text_is_copied() {
    assert_eq!(clone_optional(&Some("echo".to_string())), Some("echo".to_string()));
    assert_eq!(clone_optional(&None), None);
}
