use flow_designer::text::{contains_text, is_blank, is_white_space, remove_char, same_text, strip_prefix_text, trim};

#[test]
fn trim_strips_unicode_white_space_on_both_ends() {
    assert_eq!(trim("  \t price \r\n"), "price");
    assert_eq!(trim("\u{3000}a b\u{a0}"), "a b");
    assert_eq!(trim("   "), "");
    assert_eq!(trim(""), "");
    assert_eq!(trim("x"), "x");
}

#[test]
fn trim_agrees_with_std() {
    for s in ["", " ", "ab", " a b ", "\u{2028}q\u{85}", "\u{200b}z"] {
        assert_eq!(trim(s), s.trim());
    }
}

#[test]
fn white_space_matches_std() {
    for c in ['\t', '\n', ' ', 'a', '\u{85}', '\u{a0}', '\u{1680}', '\u{2000}', '\u{200b}', '\u{3000}', '\u{feff}'] {
        assert_eq!(is_white_space(c), c.is_whitespace(), "char {:?}", c);
    }
}

#[test]
fn blank_text() {
    assert!(is_blank(""));
    assert!(is_blank(" \t\n"));
    assert!(!is_blank(" a "));
}

#[test]
fn substring_search() {
    assert!(contains_text("read csv", "csv"));
    assert!(contains_text("read csv", ""));
    assert!(!contains_text("csv", "read csv"));
    assert!(!contains_text("read csv", "excel"));
    assert!(contains_text("aaab", "aab"));
}

#[test]
fn remove_one_character() {
    assert_eq!(remove_char("\"price\"\r", '"'), "price\r");
    assert_eq!(remove_char("abc", 'z'), "abc");
    assert_eq!(remove_char("", 'a'), "");
}

#[test]
fn prefix_is_stripped() {
    assert_eq!(strip_prefix_text("missing-value-replace-with-first-name", "missing-value-replace-with-"), Some("first-name".to_string()));
    assert_eq!(strip_prefix_text("abc", "abc"), Some(String::new()));
    assert_eq!(strip_prefix_text("abc", ""), Some("abc".to_string()));
    assert_eq!(strip_prefix_text("ab", "abc"), None);
    assert_eq!(strip_prefix_text("xbc", "a"), None);
}

#[test]
fn equal_text() {
    assert!(same_text("Csv", "Csv"));
    assert!(!same_text("Csv", "csv"));
    assert!(!same_text("Csv", "Csv "));
}
