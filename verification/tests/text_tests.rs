use zbr::text::{join, split, trim_str, replace_all, chars_of, lex_less, find_char, strip_leading_of};
use zbr::decimal::{parse_u64, u64_text, i64_text};

fn cs(s: &str) -> Vec<char> {
    s.chars().collect()
}

#[test]
fn trim_removes_unicode_white_space() {
    assert_eq!(trim_str("  \u{3000}hello world\t\n"), "hello world");
    assert_eq!(trim_str(""), "");
}

#[test]
fn join_places_separator_between_parts() {
    let parts = vec!["a".to_string(), "b".to_string(), "c".to_string()];
    assert_eq!(join(&parts, ", "), "a, b, c");
    assert_eq!(join(&Vec::new(), ", "), "");
}

#[test]
fn split_keeps_empty_pieces() {
    let pieces = split(&cs("a,,b,"), ',');
    let texts: Vec<String> = pieces.iter().map(|p| p.iter().collect()).collect();
    assert_eq!(texts, vec!["a", "", "b", ""]);
}

#[test]
fn replace_all_replaces_every_occurrence() {
    let out: String = replace_all(&cs("aXbXc"), &cs("X"), &cs("--")).into_iter().collect();
    assert_eq!(out, "a--b--c");
}

#[test]
fn decimal_parse_accepts_plus_and_rejects_overflow() {
    assert_eq!(parse_u64("+42"), Some(42));
    assert_eq!(parse_u64("18446744073709551615"), Some(u64::MAX));
    assert_eq!(parse_u64("18446744073709551616"), None);
    assert_eq!(parse_u64(""), None);
    assert_eq!(parse_u64("-1"), None);
    assert_eq!(parse_u64(" 1"), None);
}

#[test]
fn decimal_text_of_integers() {
    assert_eq!(u64_text(0), "0");
    assert_eq!(u64_text(1234567890), "1234567890");
    assert_eq!(i64_text(-17), "-17");
    assert_eq!(i64_text(i64::MIN), "-9223372036854775808");
}

#[test]
fn lexicographic_order() {
    assert!(lex_less(&cs("abc"), &cs("abd")));
    assert!(lex_less(&cs("ab"), &cs("abc")));
    assert!(!lex_less(&cs("abc"), &cs("abc")));
    assert!(!lex_less(&cs("b"), &cs("abc")));
}

#[test]
fn first_char_and_leading_strip() {
    assert_eq!(find_char(&cs("/a b c"), ' '), Some(2));
    assert_eq!(find_char(&cs("abc"), ' '), None);
    let s: String = strip_leading_of(&cs("//ping"), '/').into_iter().collect();
    assert_eq!(s, "ping");
}
