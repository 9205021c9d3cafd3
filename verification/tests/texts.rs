use restream::number::{decimal_text, parse_i64, parse_unsigned, parse_usize, signed_decimal_text};
use restream::path::{is_absolute, join_path};
use restream::text::{
    comes_first, contains_text, ends_with, join, lines, list_items, quote_list, replace_char,
    sort_texts, split_once, split_text, starts_with, strip_prefix, strip_suffix, to_ascii_lower,
    to_ascii_upper, trim, trim_leading, words,
};

fn texts(all: &[&str]) -> Vec<String> {
    all.iter().map(|t| t.to_string()).collect()
}

#[test]
fn numbers_are_written_in_decimal() {
    assert_eq!(decimal_text(0), "0");
    assert_eq!(decimal_text(18_446_744_073_709_551_615), "18446744073709551615");
    assert_eq!(signed_decimal_text(-9_223_372_036_854_775_808), "-9223372036854775808");
}

#[test]
fn numbers_are_read_within_their_limits() {
    assert_eq!(parse_unsigned("+007", 100), Some(7));
    assert_eq!(parse_unsigned("101", 100), None);
    assert_eq!(parse_unsigned("", 100), None);
    assert_eq!(parse_unsigned("+", 100), None);
    assert_eq!(parse_unsigned("1 ", 100), None);
    assert_eq!(parse_unsigned("18446744073709551616", u64::MAX), None);
    assert_eq!(parse_i64("-12"), Some(-12));
    assert_eq!(parse_i64("-9223372036854775809"), None);
    assert_eq!(parse_usize("42"), Some(42));
}

#[test]
fn reading_undoes_writing() {
    for n in [0, 9, 10, 999, 1_000_000_007, u64::MAX] {
        assert_eq!(parse_unsigned(&decimal_text(n), u64::MAX), Some(n));
    }
}

#[test]
fn paths_are_joined() {
    assert_eq!(join_path("a/b", "c"), "a/b/c");
    assert_eq!(join_path("a/b/", "c"), "a/b/c");
    assert_eq!(join_path("a", "/c"), "/c");
    assert!(is_absolute("/x"));
    assert!(!is_absolute("x"));
}

#[test]
fn texts_are_searched() {
    assert!(starts_with("stage", "st"));
    assert!(!starts_with("s", "st"));
    assert!(ends_with("a.ts", ".ts"));
    assert!(contains_text("aab", "ab"));
    assert!(!contains_text("aab", "ba"));
    assert_eq!(strip_prefix("VmRSS: 5", "VmRSS:"), Some(" 5".to_string()));
    assert_eq!(strip_suffix("8M", "M"), Some("8".to_string()));
    assert_eq!(strip_suffix("8K", "M"), None);
}

#[test]
fn texts_are_split_and_joined() {
    assert_eq!(split_text("a,,b", ','), texts(&["a", "", "b"]));
    assert_eq!(split_text("", ','), texts(&[""]));
    assert_eq!(split_once("a?b?c", '?'), ("a".to_string(), Some("b?c".to_string())));
    assert_eq!(join(&texts(&["x", "y"]), " AND "), "x AND y");
    assert_eq!(list_items(" a ,, b,"), texts(&["a", "b"]));
    assert_eq!(words("  utime\t13\n x "), texts(&["utime", "13", "x"]));
    assert_eq!(lines("a\r\nb\n"), texts(&["a", "b"]));
}

#[test]
fn texts_are_trimmed_and_replaced() {
    assert_eq!(trim(" \u{a0}x y\n"), "x y");
    assert_eq!(trim_leading("//a/", '/'), "a/");
    assert_eq!(replace_char("1.5", '.', '_'), "1_5");
    assert_eq!(to_ascii_lower("AbÄ"), "abÄ");
    assert_eq!(to_ascii_upper("aBä"), "ABä");
}

#[test]
fn texts_are_sorted() {
    assert_eq!(
        sort_texts(texts(&["b", "a", "ab", "a"])),
        texts(&["a", "a", "ab", "b"])
    );
    assert!(comes_first("a", "a"));
    assert!(comes_first("a", "ab"));
    assert!(!comes_first("b", "ab"));
}

#[test]
fn texts_are_quoted() {
    assert_eq!(quote_list(&texts(&["data", "say \"x\""])), "[\"data\", \"say \\\"x\\\"\"]");
    assert_eq!(quote_list(&texts(&[])), "[]");
}
