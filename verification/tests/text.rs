use mermaduckle::text::{
    contains_str, decimal_text, first_segment_text, join_with, lines_of, remove_dashes_text,
    replace_text, same_ignoring_ascii_case, signed_decimal_text, strip_prefix_text, text_less,
    trim_end_matches_text, trim_start_matches_text, trim_text,
};

#[test]
fn decimal_notation() {
    assert_eq!(decimal_text(0), "0");
    assert_eq!(decimal_text(7), "7");
    assert_eq!(decimal_text(1450), "1450");
    assert_eq!(decimal_text(u64::MAX), u64::MAX.to_string());
    assert_eq!(signed_decimal_text(-42), "-42");
    assert_eq!(signed_decimal_text(i64::MIN), i64::MIN.to_string());
}

#[test]
fn trimming_white_space() {
    assert_eq!(trim_text("  a b \t\n"), "a b");
    assert_eq!(trim_text("\u{3000}x\u{00A0}"), "x");
    assert_eq!(trim_text("   "), "");
    assert_eq!(trim_text("\u{200B}x"), "\u{200B}x");
}

#[test]
fn replacing_left_to_right() {
    assert_eq!(replace_text("aaa", "aa", "b"), "ba");
    assert_eq!(replace_text("x {{output}} y {{output}}", "{{output}}", "Z"), "x Z y Z");
    assert_eq!(replace_text("none here", "{{item}}", "q"), "none here");
    assert_eq!(replace_text("", "a", "b"), "");
}

#[test]
fn containment() {
    assert!(contains_str("hello world", "o w"));
    assert!(contains_str("abc", ""));
    assert!(!contains_str("ab", "abc"));
    assert!(!contains_str("hello", "hex"));
}

#[test]
fn lines_like_std() {
    for s in ["", "a", "a\n", "a\r\nb", "a\n\nb\r", "\n", "x\r\n\r\n"] {
        let ours = lines_of(s);
        let std: Vec<String> = s.lines().map(|l| l.to_string()).collect();
        assert_eq!(ours, std, "lines of {:?}", s);
    }
}

#[test]
fn ascii_case_and_order() {
    assert!(same_ignoring_ascii_case("TrUe", "true"));
    assert!(!same_ignoring_ascii_case("tru", "true"));
    assert!(!same_ignoring_ascii_case("É", "é"));
    assert!(text_less("abc", "abd"));
    assert!(text_less("ab", "abc"));
    assert!(!text_less("b", "abc"));
    assert!(!text_less("same", "same"));
}

#[test]
fn prefixes_suffixes_and_dashes() {
    assert_eq!(strip_prefix_text("Bearer tok", "Bearer ").as_deref(), Some("tok"));
    assert_eq!(strip_prefix_text("bearer tok", "Bearer "), None);
    assert_eq!(trim_start_matches_text("```json```jsonX", "```json"), "X");
    assert_eq!(trim_end_matches_text("X``````", "```"), "X");
    assert_eq!(trim_end_matches_text("X````", "```"), "X`");
    assert_eq!(remove_dashes_text("1b4e28ba-2fa1-11d2"), "1b4e28ba2fa111d2");
    assert_eq!(first_segment_text("1b4e28ba-2fa1-11d2"), "1b4e28ba");
    assert_eq!(first_segment_text("plain"), "plain");
    assert_eq!(join_with(&vec!["a".to_string(), "b".to_string()], ", "), "a, b");
    assert_eq!(join_with(&Vec::new(), ", "), "");
}
