use wnrake::text::{contains, equals, replace_all, starts_with};

#[test]
fn substring_search() {
    assert!(contains("abcdef", "cde"));
    assert!(contains("abc", ""));
    assert!(!contains("abc", "abcd"));
    assert!(!contains("abcabd", "abe"));
    assert!(contains("abcabd", "abd"));
}

#[test]
fn prefixes_and_equality() {
    assert!(starts_with("2024-01-01_x", "2024-01-01"));
    assert!(!starts_with("2024-01-0", "2024-01-01"));
    assert!(equals("running", "running"));
    assert!(!equals("running", "runnin"));
}

#[test]
fn replacement_scans_left_to_right() {
    assert_eq!(replace_all("https://a//b", ":", ""), "https//a//b");
    assert_eq!(replace_all("///", "//", "/"), "//");
    assert_eq!(replace_all("a b c", " ", ""), "abc");
    assert_eq!(replace_all("abc", "", "x"), "abc");
}
