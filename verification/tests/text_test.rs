//! Text helpers: lists, trimming, case, searching.

use rproxy::text::{
    chars_eq, chars_of, concat_str, contains_chars, ends_with_chars, parse_list_text, starts_with_char,
    starts_with_chars, string_from_chars, to_ascii_lower, trim_chars,
};

fn chars(s: &str) -> Vec<char> {
    s.chars().collect()
}

#[test]
fn lists_are_split_trimmed_and_filtered() {
    assert_eq!(parse_list_text("a, b ,c"), vec!["a", "b", "c"]);
    assert_eq!(parse_list_text(""), Vec::<String>::new());
    assert_eq!(parse_list_text(",,,"), Vec::<String>::new());
    assert_eq!(parse_list_text(" \t/x* ,\u{3000}/y\u{a0}"), vec!["/x*", "/y"]);
    for entry in parse_list_text("  a b , ,c,  d  ") {
        assert!(!entry.is_empty());
        assert_eq!(entry.trim(), entry);
        assert!(!entry.contains(','));
    }
}

#[test]
fn trimming_follows_unicode_whitespace() {
    assert_eq!(trim_chars(&chars("  hi there \n")), chars("hi there"));
    assert_eq!(trim_chars(&chars("\u{2003}x\u{2029}")), chars("x"));
    assert_eq!(trim_chars(&chars(" \t ")), chars(""));
    assert_eq!(trim_chars(&chars("\u{200b}x")), chars("\u{200b}x"));
}

#[test]
fn ascii_lowering() {
    assert_eq!(to_ascii_lower(&chars("KeEp-Alive ÄÖ")), chars("keep-alive ÄÖ"));
}

#[test]
fn searching() {
    assert!(contains_chars(&chars("keep-alive, upgrade"), &chars("upgrade")));
    assert!(!contains_chars(&chars("upgrad"), &chars("upgrade")));
    assert!(contains_chars(&chars("x"), &chars("")));
    assert!(starts_with_chars(&chars("/ws/chat"), &chars("/ws/")));
    assert!(!starts_with_chars(&chars("/w"), &chars("/ws")));
    assert!(ends_with_chars(&chars("/ws/*"), &chars("/*")));
    assert!(chars_eq(&chars("abc"), &chars_of("abc")));
    assert!(!chars_eq(&chars("abc"), &chars("abd")));
    assert!(starts_with_char("/x", '/'));
    assert!(!starts_with_char("", '/'));
}

#[test]
fn building_strings() {
    assert_eq!(concat_str("ab", "cd"), "abcd");
    assert_eq!(string_from_chars(&chars("héllo")), "héllo");
}
