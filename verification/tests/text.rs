use nooboard_gui::text::{
    chars_of, decimal_string, is_whitespace_char, str_contains, str_eq, str_parse_u16, str_trim,
};

#[test]
fn decimal_string_writes_digits() {
    assert_eq!(decimal_string(0), "0");
    assert_eq!(decimal_string(7), "7");
    assert_eq!(decimal_string(17890), "17890");
    assert_eq!(decimal_string(u64::MAX), "18446744073709551615");
}

#[test]
fn str_eq_compares_characters() {
    assert!(str_eq("abc", "abc"));
    assert!(!str_eq("abc", "abd"));
    assert!(!str_eq("abc", "ab"));
    assert!(str_eq("", ""));
}

#[test]
fn chars_of_lists_each_character() {
    assert_eq!(chars_of("aé😀"), vec!['a', 'é', '😀']);
    assert!(chars_of("").is_empty());
}

#[test]
fn whitespace_chars_are_those_of_std() {
    for c in ['\t', '\n', '\u{b}', '\u{c}', '\r', ' ', '\u{85}', '\u{a0}', '\u{1680}', '\u{2000}', '\u{200a}',
        '\u{2028}', '\u{2029}', '\u{202f}', '\u{205f}', '\u{3000}', 'a', '\u{200b}', '\u{feff}', '_', '\u{1f}']
    {
        assert_eq!(is_whitespace_char(c), c.is_whitespace(), "{:?}", c);
    }
}

#[test]
fn str_trim_drops_surrounding_whitespace() {
    assert_eq!(str_trim("  a b \t\n"), "a b");
    assert_eq!(str_trim("\u{3000}x\u{a0}"), "x");
    assert_eq!(str_trim(" \t "), "");
    assert_eq!(str_trim(""), "");
    assert_eq!(str_trim("plain"), "plain");
    for s in ["  mixed é \u{2028}", "\u{85}", "a\u{200b}"] {
        assert_eq!(str_trim(s), s.trim());
    }
}

#[test]
fn str_contains_finds_runs() {
    assert!(str_contains("connection failed", "fail"));
    assert!(str_contains("abc", ""));
    assert!(str_contains("", ""));
    assert!(!str_contains("", "a"));
    assert!(!str_contains("ab", "abc"));
    assert!(str_contains("aaab", "aab"));
    assert!(!str_contains("a-b", "ab"));
    assert!(str_contains("héllo", "él"));
}

#[test]
fn str_parse_u16_reads_like_from_str() {
    assert_eq!(str_parse_u16("0"), Some(0));
    assert_eq!(str_parse_u16("8080"), Some(8080));
    assert_eq!(str_parse_u16("+17"), Some(17));
    assert_eq!(str_parse_u16("00065535"), Some(65535));
    assert_eq!(str_parse_u16("65536"), None);
    assert_eq!(str_parse_u16("999999"), None);
    assert_eq!(str_parse_u16(""), None);
    assert_eq!(str_parse_u16("+"), None);
    assert_eq!(str_parse_u16("-1"), None);
    assert_eq!(str_parse_u16(" 1"), None);
    assert_eq!(str_parse_u16("12a"), None);
    assert_eq!(str_parse_u16("٣"), None);
    for s in ["0", "+0", "65535", "65536", "+", "++1", "1 ", "007"] {
        assert_eq!(str_parse_u16(s), s.parse::<u16>().ok(), "{:?}", s);
    }
}
