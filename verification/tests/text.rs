use linked_chat_bot::text::{
    chars_of, is_space_char, join_strings, remove_all_chars, string_from_chars, text_contains,
    trim_chars,
};

fn trim_str(s: &str) -> String {
    string_from_chars(&trim_chars(&chars_of(s)))
}

fn remove_str(s: &str, pat: &str) -> String {
    string_from_chars(&remove_all_chars(&chars_of(s), &chars_of(pat)))
}

#[test]
fn trim_matches_std() {
    for s in ["", "  ", " a ", "\u{a0}x\u{2028}", "a b", "\t\nab\r\n", "\u{200b}x"] {
        assert_eq!(trim_str(s), s.trim(), "case {:?}", s);
    }
}

#[test]
fn trim_twice_is_trim_once() {
    let once = trim_str("  \n hello \t ");
    assert_eq!(once, "hello");
    assert_eq!(trim_str(&once), once);
}

#[test]
fn remove_matches_std_replace() {
    for (s, p) in [("aabb", "ab"), ("abab", "ab"), ("aaa", "aa"), ("xyz", ""), ("", "a"), ("abc", "abcd")] {
        assert_eq!(remove_str(s, p), s.replace(p, ""), "case {:?} {:?}", s, p);
    }
}

#[test]
fn whitespace_set() {
    for c in ['\t', '\n', '\u{b}', '\u{c}', '\r', ' ', '\u{85}', '\u{a0}', '\u{1680}', '\u{2000}', '\u{200a}', '\u{2028}', '\u{2029}', '\u{202f}', '\u{205f}', '\u{3000}'] {
        assert!(is_space_char(c));
        assert!(c.is_whitespace());
    }
    for c in ['a', '\u{200b}', '\u{feff}', '0', '\u{180e}'] {
        assert!(!is_space_char(c));
        assert_eq!(is_space_char(c), c.is_whitespace());
    }
}

#[test]
fn join_and_contains() {
    let parts = vec!["a".to_string(), "b".to_string(), "c".to_string()];
    assert_eq!(join_strings(&parts, ", "), "a, b, c");
    assert_eq!(join_strings(&Vec::new(), ", "), "");
    assert!(text_contains("hello world", "o w"));
    assert!(text_contains("abc", ""));
    assert!(!text_contains("abc", "abcd"));
}
