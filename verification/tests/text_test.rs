use nztool_oar::text::{
    chars_between, chars_eq, chars_eq_str, chars_le_exec, chars_of, concat_str, is_ascii_alpha_char,
    is_white_space_char, parse_i32, parse_u32, sort_by_lowercase, str_eq, string_from_chars, to_ascii_upper,
    trim_chars,
};

fn cs(s: &str) -> Vec<char> {
    s.chars().collect()
}

#[test]
fn unsigned_numbers_parse_as_rust_does() {
    assert_eq!(parse_u32(&cs("0")), Some(0));
    assert_eq!(parse_u32(&cs("42")), Some(42));
    assert_eq!(parse_u32(&cs("+7")), Some(7));
    assert_eq!(parse_u32(&cs("007")), Some(7));
    assert_eq!(parse_u32(&cs("4294967295")), Some(u32::MAX));
    assert_eq!(parse_u32(&cs("4294967296")), None);
    assert_eq!(parse_u32(&cs("")), None);
    assert_eq!(parse_u32(&cs("+")), None);
    assert_eq!(parse_u32(&cs("-1")), None);
    assert_eq!(parse_u32(&cs(" 1")), None);
    assert_eq!(parse_u32(&cs("1a")), None);
    for s in ["0", "12", "+3", "99999", "4294967295", "4294967296", "", "-", "-0", "x"] {
        assert_eq!(parse_u32(&cs(s)), s.parse::<u32>().ok(), "{}", s);
    }
}

#[test]
fn signed_numbers_parse_as_rust_does() {
    assert_eq!(parse_i32(&cs("-5")), Some(-5));
    assert_eq!(parse_i32(&cs("2147483647")), Some(i32::MAX));
    assert_eq!(parse_i32(&cs("-2147483648")), Some(i32::MIN));
    assert_eq!(parse_i32(&cs("2147483648")), None);
    assert_eq!(parse_i32(&cs("-2147483649")), None);
    assert_eq!(parse_i32(&cs("-")), None);
    assert_eq!(parse_i32(&cs("--1")), None);
    for s in ["1", "-1", "+1", "-0", "0", "-2147483648", "2147483647", "2147483648", "", "+", "1 ", "١"] {
        assert_eq!(parse_i32(&cs(s)), s.parse::<i32>().ok(), "{}", s);
    }
}

#[test]
fn trimming_removes_unicode_white_space() {
    assert_eq!(trim_chars(&cs("  a b \t\n")), cs("a b"));
    assert_eq!(trim_chars(&cs("\u{3000}x\u{a0}")), cs("x"));
    assert_eq!(trim_chars(&cs("   ")), cs(""));
    assert_eq!(trim_chars(&cs("")), cs(""));
    for s in [" a ", "\r\nline\r", "\u{2003}y", "z"] {
        assert_eq!(trim_chars(&cs(s)), cs(s.trim()));
    }
    assert!(is_white_space_char('\u{85}'));
    assert!(!is_white_space_char('x'));
}

#[test]
fn sorting_ignores_case_and_keeps_ties_in_order() {
    let items = vec!["b".to_string(), "B".to_string(), "a".to_string(), "C".to_string(), "A".to_string()];
    let sorted = sort_by_lowercase(&items);
    assert_eq!(sorted, vec!["a", "A", "b", "B", "C"]);
    let empty: Vec<String> = Vec::new();
    assert!(sort_by_lowercase(&empty).is_empty());
    let mut expected = items.clone();
    expected.sort_by(|a, b| a.to_lowercase().cmp(&b.to_lowercase()));
    assert_eq!(sorted, expected);
}

#[test]
fn character_helpers() {
    assert_eq!(chars_of("héllo"), cs("héllo"));
    assert_eq!(string_from_chars(&cs("héllo")), "héllo");
    assert!(chars_eq(&cs("ab"), &cs("ab")));
    assert!(!chars_eq(&cs("ab"), &cs("abc")));
    assert!(chars_eq_str(&cs("ab"), "ab"));
    assert!(str_eq("x", "x"));
    assert!(!str_eq("x", "X"));
    assert_eq!(concat_str("ab", "cd"), "abcd");
    assert!(chars_le_exec(&cs("ab"), &cs("abc")));
    assert!(chars_le_exec(&cs("ab"), &cs("ab")));
    assert!(!chars_le_exec(&cs("b"), &cs("abc")));
    assert_eq!(chars_between(&cs("abcdef"), 1, 4), cs("bcd"));
    assert!(is_ascii_alpha_char('q'));
    assert!(!is_ascii_alpha_char('é'));
    assert_eq!(to_ascii_upper('q'), 'Q');
    assert_eq!(to_ascii_upper('1'), '1');
}
