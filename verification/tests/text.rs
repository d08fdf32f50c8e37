use nats_admin::text::{
    decimal_text, is_whitespace, join, parse_u64, parse_usize, same_text, split, split_whitespace,
    strip_end_of, strip_of, strip_prefix, trim, contains_text, CharClass,
};

#[test]
fn white_space_is_that_of_unicode() {
    let mut code: u32 = 0;
    while code <= 0x10ffff {
        if let Some(c) = char::from_u32(code) {
            assert_eq!(is_whitespace(c), c.is_whitespace());
        }
        code += 1;
    }
}

#[test]
fn trimming_is_that_of_str() {
    for s in ["", " ", "a", " a ", "\u{3000}a b\u{a0}\n", "\r\n\t", "x \u{85}"] {
        assert_eq!(trim(s), s.trim());
        assert_eq!(trim(trim(s)), trim(s));
    }
    assert_eq!(strip_end_of("line\r\n\r", CharClass::LineEnd), "line");
    assert_eq!(strip_of("''it's''", CharClass::Quote), "it's");
}

#[test]
fn splitting_is_that_of_str() {
    for s in ["", ".", "a", "a.b", ".a..b.", "\u{fc}.\u{1f600}"] {
        let expected: Vec<&str> = s.split('.').collect();
        assert_eq!(split(s, CharClass::Dot), expected);
        assert_eq!(split(s, CharClass::Dot).join("."), s);
    }
    for s in ["", "  ", "a", " a  b\tc\n", "a\u{2003}b"] {
        let expected: Vec<&str> = s.split_whitespace().collect();
        assert_eq!(split_whitespace(s), expected);
    }
}

#[test]
fn prefixes_and_parts_are_found() {
    assert_eq!(strip_prefix("INFO {}", "INFO "), Some("{}"));
    assert_eq!(strip_prefix("INF", "INFO "), None);
    assert!(contains_text("nats://h", "://"));
    assert!(!contains_text("h:1", "://"));
    assert!(contains_text("x", ""));
    assert!(same_text("\u{e9}", "\u{e9}"));
    assert!(!same_text("\u{e9}", "e"));
}

#[test]
fn numbers_are_read_as_std_reads_them() {
    for s in [
        "0", "7", "007", "+5", "", "+", "-1", "++1", "1+", "12a", " 1", "18446744073709551615",
        "18446744073709551616", "99999999999999999999999", "\u{663}",
    ] {
        assert_eq!(parse_u64(s), s.parse::<u64>().ok());
        assert_eq!(parse_usize(s), s.parse::<usize>().ok());
    }
}

#[test]
fn numbers_come_back() {
    for n in [0u64, 9, 10, 99, 100, 4222, 1_000_000_007, u64::MAX] {
        assert_eq!(decimal_text(n), n.to_string());
        assert_eq!(parse_u64(&decimal_text(n)), Some(n));
    }
}

#[test]
fn texts_are_joined() {
    let none: Vec<String> = Vec::new();
    assert_eq!(join(&none, "; "), "");
    assert_eq!(join(&vec!["a".to_string()], "; "), "a");
    assert_eq!(join(&vec!["a".to_string(), "".to_string(), "b".to_string()], "; "), "a; ; b");
}
