use swap_rescue::text::{
    char_is_whitespace, chars_of, contains_white_space, decimal_string, join_strings, join_strs,
    parse_u64, split_whitespace_str, starts_with_str, str_eq, trim_str,
};

#[test]
fn whitespace_set_matches_unicode() {
    for c in ['\t', '\n', '\u{0B}', '\u{0C}', '\r', ' ', '\u{85}', '\u{A0}', '\u{1680}', '\u{2000}', '\u{200A}', '\u{2028}', '\u{2029}', '\u{202F}', '\u{205F}', '\u{3000}'] {
        assert!(char_is_whitespace(c), "{:?}", c);
        assert_eq!(char_is_whitespace(c), c.is_whitespace());
    }
    for c in ['a', '0', '\u{200B}', '\u{180E}', '\u{FEFF}', '_', '\u{1F600}'] {
        assert!(!char_is_whitespace(c), "{:?}", c);
        assert_eq!(char_is_whitespace(c), c.is_whitespace());
    }
}

#[test]
fn trim_removes_both_ends() {
    assert_eq!(trim_str("  abandon \t"), "abandon");
    assert_eq!(trim_str("\u{3000}x y\u{A0}"), "x y");
    assert_eq!(trim_str("   "), "");
    assert_eq!(trim_str(""), "");
    assert_eq!(trim_str("abc"), "abc");
}

#[test]
fn chars_of_keeps_order() {
    assert_eq!(chars_of("a→b"), vec!['a', '→', 'b']);
}

#[test]
fn split_whitespace_gives_words() {
    assert_eq!(split_whitespace_str("  one two\n\tthree  "), vec!["one", "two", "three"]);
    assert_eq!(split_whitespace_str("   "), Vec::<&str>::new());
    assert_eq!(split_whitespace_str("single"), vec!["single"]);
    assert!(split_whitespace_str("").is_empty());
}

#[test]
fn join_puts_separator_between() {
    assert_eq!(join_strs(&vec!["a", "b", "c"], " "), "a b c");
    assert_eq!(join_strs(&vec![], " "), "");
    assert_eq!(join_strings(&vec!["x".to_string()], "\n"), "x");
    assert_eq!(join_strings(&vec!["x".to_string(), "".to_string(), "y".to_string()], "\n"), "x\n\ny");
}

#[test]
fn parse_u64_follows_std() {
    for s in ["0", "42", "+7", "007", "18446744073709551615", "", "+", "-1", " 5", "5 ", "1a", "18446744073709551616", "99999999999999999999"] {
        assert_eq!(parse_u64(s), s.parse::<u64>().ok(), "{:?}", s);
    }
    assert_eq!(parse_u64("210"), Some(210));
}

#[test]
fn decimal_text_of_numbers() {
    assert_eq!(decimal_string(0), "0");
    assert_eq!(decimal_string(7), "7");
    assert_eq!(decimal_string(210), "210");
    assert_eq!(decimal_string(u64::MAX), u64::MAX.to_string());
}

#[test]
fn prefix_and_equality() {
    assert!(starts_with_str("abandon", "aban"));
    assert!(starts_with_str("abandon", ""));
    assert!(!starts_with_str("ab", "abandon"));
    assert!(!starts_with_str("abandon", "abx"));
    assert!(str_eq("claim", "claim"));
    assert!(!str_eq("claim", "Claim"));
}

#[test]
fn whitespace_detection() {
    assert!(contains_white_space("a b"));
    assert!(contains_white_space("\u{3000}"));
    assert!(!contains_white_space("abandon"));
    assert!(!contains_white_space(""));
}
