use stourney::text::{
    chars_of, contains_text, decimal_text, ends_with, same_text, skip_chars, starts_with, trim,
};

#[test]
fn decimal_text_writes_base_ten() {
    assert_eq!(decimal_text(0), "0");
    assert_eq!(decimal_text(7), "7");
    assert_eq!(decimal_text(3030), "3030");
    assert_eq!(decimal_text(65535), "65535");
}

#[test]
fn trim_removes_space_at_both_ends() {
    assert_eq!(trim("  abc \n"), "abc");
    assert_eq!(trim("\t\r\n"), "");
    assert_eq!(trim("a b"), "a b");
    assert_eq!(trim(""), "");
    assert_eq!(trim("\u{a0}x\u{3000}"), "x");
}

#[test]
fn contains_text_finds_a_part() {
    assert!(contains_text("Python 3.11.2", "Python 3"));
    assert!(!contains_text("Python 2.7", "Python 3"));
    assert!(contains_text("abc", ""));
    assert!(!contains_text("ab", "abc"));
    assert!(contains_text("xxabc", "abc"));
}

#[test]
fn prefix_and_suffix() {
    assert!(starts_with("\\\\?\\C:\\x", "\\\\?\\"));
    assert!(!starts_with("C:\\x", "\\\\?\\"));
    assert!(ends_with("a.whl", ".whl"));
    assert!(!ends_with("whl", ".whl"));
    assert!(same_text("héllo", "héllo"));
    assert!(!same_text("hello", "hellO"));
}

#[test]
fn skip_chars_counts_characters() {
    assert_eq!(skip_chars("héllo", 2), "llo");
    assert_eq!(skip_chars("abc", 0), "abc");
    assert_eq!(skip_chars("abc", 3), "");
    assert_eq!(skip_chars("abc", 4), "");
    assert_eq!(chars_of("hé"), vec!['h', 'é']);
}
