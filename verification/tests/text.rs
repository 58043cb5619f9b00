use passman::text::{blank, contains, trim};

#[test]
fn trim_removes_white_space_at_both_ends() {
    assert_eq!(trim("  a b \t\n"), "a b");
    assert_eq!(trim(""), "");
    assert_eq!(trim(" \u{3000} "), "");
    assert_eq!(trim("x"), "x");
    assert_eq!(trim("\u{00a0}é\u{2003}"), "é");
}

#[test]
fn blank_means_only_white_space() {
    assert!(blank(""));
    assert!(blank(" \t\n"));
    assert!(!blank(" a "));
}

#[test]
fn contains_finds_substrings() {
    assert!(contains("hello", "ell"));
    assert!(contains("hello", ""));
    assert!(contains("hello", "hello"));
    assert!(!contains("hello", "hellos"));
    assert!(!contains("", "a"));
    assert!(contains("ünïcödé", "ïcö"));
    assert!(!contains("abc", "ac"));
}
