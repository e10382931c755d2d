//! The text primitives.

use mcp_gateway::text::{
    append_decimal, contains, ends_with, first_line, same, split, split_before, strip_prefix,
    trim_end, uncons,
};

#[test]
fn text_is_split_before_a_character() {
    assert_eq!(split_before("ab/cd/e", '/'), ("ab", "/cd/e"));
    assert_eq!(split_before("/x", '/'), ("", "/x"));
    assert_eq!(split_before("aé€😀/x", '/'), ("aé€😀", "/x"));
    assert_eq!(split_before("aé€😀", '😀'), ("aé€", "😀"));
    assert_eq!(split_before("none", '/'), ("none", ""));
    assert_eq!(split_before("", '/'), ("", ""));
}

#[test]
fn first_character_comes_off() {
    assert_eq!(uncons("€x"), Some(('€', "x")));
    assert_eq!(uncons(""), None);
}

#[test]
fn prefix_comes_off() {
    assert_eq!(strip_prefix("data: x", "data:"), Some(" x"));
    assert_eq!(strip_prefix("é€", "é"), Some("€"));
    assert_eq!(strip_prefix("da", "data:"), None);
    assert_eq!(strip_prefix("date", "data"), None);
    assert_eq!(strip_prefix("x", ""), Some("x"));
}

#[test]
fn texts_compare_by_characters() {
    assert!(same("é", "é"));
    assert!(!same("é", "e"));
    assert!(!same("ab", "a"));
    assert!(!same("a", "ab"));
    assert!(same("", ""));
    assert!(ends_with("base/http", "/http"));
    assert!(!ends_with("http", "/http"));
    assert!(!ends_with("base/http/", "/http"));
    assert!(ends_with("x", ""));
    assert!(contains("a sessionId= b", "sessionId="));
    assert!(contains("aab", "ab"));
    assert!(!contains("aa", "ab"));
    assert!(contains("", ""));
}

#[test]
fn run_at_the_end_is_trimmed() {
    assert_eq!(trim_end("a/b//", '/'), "a/b");
    assert_eq!(trim_end("///", '/'), "");
    assert_eq!(trim_end("é/", '/'), "é");
    assert_eq!(trim_end("a", '/'), "a");
}

#[test]
fn lines_end_with_line_feeds() {
    assert_eq!(first_line("a\nb"), ("a", "b"));
    assert_eq!(first_line("a\r\nb"), ("a", "b"));
    assert_eq!(first_line("a\r\r\nb"), ("a\r", "b"));
    assert_eq!(first_line("\n"), ("", ""));
    assert_eq!(first_line("é\r"), ("é\r", ""));
}

#[test]
fn pieces_stand_between_separators() {
    assert_eq!(split("/a//b", '/'), vec!["", "a", "", "b"]);
    assert_eq!(split("", '/'), vec![""]);
    assert_eq!(split("a&", '&'), vec!["a", ""]);
}

#[test]
fn numbers_are_written_in_decimal() {
    for n in [0, 7, 10, 99, 100, 1250000, usize::MAX] {
        let mut text = "n=".to_string();
        append_decimal(&mut text, n);
        assert_eq!(text, format!("n={}", n));
    }
}
