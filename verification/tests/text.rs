use ntd_db::text::{chars_of, contains_str, decimal_string, is_whitespace_char, join_strings, push_all, push_decimal};

#[test]
fn whitespace_set_matches_std() {
    for c in ['\t', '\n', '\u{b}', '\u{c}', '\r', ' ', '\u{85}', '\u{a0}', '\u{1680}', '\u{2000}', '\u{200a}', '\u{2028}', '\u{2029}', '\u{202f}', '\u{205f}', '\u{3000}'] {
        assert!(is_whitespace_char(c), "{:?}", c);
        assert!(c.is_whitespace());
    }
    for c in ['a', '0', '_', '\u{200b}', '\u{180e}', '\u{feff}', '\u{1}'] {
        assert!(!is_whitespace_char(c), "{:?}", c);
        assert_eq!(c.is_whitespace(), false);
    }
    // agrees with char::is_whitespace over the whole Basic Multilingual Plane
    for u in 0u32..0x10000 {
        if let Some(c) = char::from_u32(u) {
            assert_eq!(is_whitespace_char(c), c.is_whitespace(), "U+{:04X}", u);
        }
    }
}

#[test]
fn contains_str_finds_substrings() {
    assert!(contains_str("abc", ""));
    assert!(contains_str("abc", "abc"));
    assert!(contains_str("xxabcxx", "bcx"));
    assert!(!contains_str("abc", "abcd"));
    assert!(!contains_str("", "a"));
    assert!(!contains_str("aab", "abb"));
    assert!(contains_str("重复 duplicate column name: x", "duplicate column name"));
}

#[test]
fn decimal_rendering() {
    assert_eq!(decimal_string(0), "0");
    assert_eq!(decimal_string(7), "7");
    assert_eq!(decimal_string(1234567890), "1234567890");
    assert_eq!(decimal_string(-45), "-45");
    assert_eq!(decimal_string(i64::MAX), i64::MAX.to_string());
    assert_eq!(decimal_string(i64::MIN), i64::MIN.to_string());
    let mut s = String::from("id=");
    push_decimal(&mut s, 10);
    assert_eq!(s, "id=10");
}

#[test]
fn joining_and_appending() {
    let parts = vec!["a".to_string(), "bb".to_string(), "".to_string(), "c".to_string()];
    assert_eq!(join_strings(&parts, ", "), "a, bb, , c");
    assert_eq!(join_strings(&Vec::new(), ", "), "");
    assert_eq!(join_strings(&vec!["x".to_string()], "--"), "x");
    let mut s = String::from("ab");
    push_all(&mut s, "cd");
    assert_eq!(s, "abcd");
    assert_eq!(chars_of("héllo"), vec!['h', 'é', 'l', 'l', 'o']);
}

#[test]
fn one_line_is_never_longer() {
    for s in ["", " ", "a", "  a  b  ", "x\ty\nz", "word"] {
        assert!(ntd_db::text::one_line(s).chars().count() <= s.chars().count());
    }
}
