use mnemo::numeric::{decimal_string, parse_u16_str, push_hex_fixed};
use mnemo::text::{
    chars_of, concat_str, is_whitespace, split_trim_nonempty, str_contains, str_ends_with, str_eq,
    trim, trim_end_matches_char,
};

#[test]
fn trim_end_matches_removes_every_trailing_copy() {
    assert_eq!(trim_end_matches_char("https://a.b///", '/'), "https://a.b");
    assert_eq!(trim_end_matches_char("https://a.b", '/'), "https://a.b");
    assert_eq!(trim_end_matches_char("///", '/'), "");
    assert_eq!(trim_end_matches_char("", '/'), "");
}

#[test]
fn trim_removes_unicode_white_space() {
    assert_eq!(trim("  gpt-4o \t\n"), "gpt-4o");
    assert_eq!(trim("\u{3000}模型\u{00A0}"), "模型");
    assert_eq!(trim("   "), "");
    assert_eq!(trim("a b"), "a b");
}

#[test]
fn whitespace_matches_std() {
    for c in ['\t', '\n', ' ', '\u{85}', '\u{A0}', '\u{1680}', '\u{2000}', '\u{200A}', '\u{2028}', '\u{3000}', 'a', '0', '\u{200B}', '-'] {
        assert_eq!(is_whitespace(c), c.is_whitespace(), "{:?}", c);
    }
}

#[test]
fn split_trim_nonempty_drops_blank_entries() {
    assert_eq!(split_trim_nonempty(" a , b,,c ,", ','), vec!["a", "b", "c"]);
    assert_eq!(split_trim_nonempty("", ','), Vec::<String>::new());
    assert_eq!(split_trim_nonempty(" , ", ','), Vec::<String>::new());
    assert_eq!(split_trim_nonempty("one", ','), vec!["one"]);
}

#[test]
fn contains_and_ends_with() {
    assert!(str_contains("error: session timeout", "session timeout"));
    assert!(str_contains("code -14", "-14"));
    assert!(!str_contains("code -13", "-14"));
    assert!(str_contains("abc", ""));
    assert!(str_ends_with("https://x/v1", "/v1"));
    assert!(!str_ends_with("v1", "/v1"));
    assert!(str_eq("wait", "wait"));
    assert!(!str_eq("wait", "wai"));
    assert_eq!(concat_str("ab", "语"), "ab语");
    assert_eq!(chars_of("语音"), vec!['语', '音']);
}

#[test]
fn decimal_and_hex_text() {
    assert_eq!(decimal_string(0), "0");
    assert_eq!(decimal_string(5432), "5432");
    assert_eq!(decimal_string(u64::MAX), u64::MAX.to_string());
    let mut s = String::new();
    push_hex_fixed(&mut s, 0xab, 16);
    assert_eq!(s, "00000000000000ab");
    let mut t = String::from("x");
    push_hex_fixed(&mut t, u64::MAX, 16);
    assert_eq!(t, "xffffffffffffffff");
}

#[test]
fn parse_u16_matches_std() {
    for s in ["5432", "+80", "0", "65535", "65536", "", "+", "-1", "12a", "00000000000000000007", " 1", "99999999999999"] {
        assert_eq!(parse_u16_str(s), s.parse::<u16>().ok(), "{:?}", s);
    }
}
