use vtcode_core::text::{
    decimal_string, find_from, from_chars, from_chars_range, matches_at, push_decimal, push_range,
    push_str, same_chars, split_lines, str_is, to_ascii_lower, to_chars, trim_bounds,
    trim_end_index, trim_start_index, white_space,
};

fn chars(text: &str) -> Vec<char> {
    text.chars().collect()
}

#[test]
fn chars_and_strings_convert_both_ways() {
    assert_eq!(to_chars("héllo"), chars("héllo"));
    assert_eq!(from_chars(&chars("héllo")), "héllo");
    assert_eq!(from_chars_range(&chars("héllo"), 1, 3), "él");
    assert_eq!(from_chars_range(&chars("abc"), 2, 2), "");
    let mut out = chars("a");
    push_str(&mut out, "bç");
    push_range(&mut out, &chars("0123"), 1, 3);
    assert_eq!(out, chars("abç12"));
    assert!(same_chars(&chars("ab"), &chars("ab")));
    assert!(!same_chars(&chars("ab"), &chars("abc")));
    assert!(!same_chars(&chars("ab"), &chars("aB")));
    assert!(str_is(&chars("rust"), "rust"));
    assert!(!str_is(&chars("rust"), "rs"));
}

#[test]
fn search_finds_the_first_occurrence() {
    let hay = chars("abcabc");
    assert!(matches_at(&hay, 3, &chars("abc")));
    assert!(!matches_at(&hay, 4, &chars("abc")));
    assert!(matches_at(&hay, 6, &chars("")));
    assert!(!matches_at(&hay, 7, &chars("")));
    assert_eq!(find_from(&hay, 0, &chars("bc")), Some(1));
    assert_eq!(find_from(&hay, 2, &chars("bc")), Some(4));
    assert_eq!(find_from(&hay, 5, &chars("bc")), None);
    assert_eq!(find_from(&hay, 0, &chars("x")), None);
    assert_eq!(find_from(&hay, 6, &chars("")), Some(6));
    assert_eq!(find_from(&hay, 7, &chars("")), None);
}

#[test]
fn white_space_is_what_the_standard_library_says() {
    for code in 0..0x3100u32 {
        if let Some(c) = char::from_u32(code) {
            assert_eq!(white_space(c), c.is_whitespace(), "for U+{code:04X}");
        }
    }
    assert!(!white_space('\u{FEFF}'));
}

#[test]
fn trimming_agrees_with_the_standard_library() {
    for text in ["", "  ", " a ", "\t\na b\r\n", "x", "\u{3000}é\u{2003}", " \u{200B} "] {
        let v = chars(text);
        let (a, b) = trim_bounds(&v, 0, v.len());
        assert_eq!(from_chars_range(&v, a, b), text.trim(), "for {text:?}");
        let start = trim_start_index(&v, 0, v.len());
        assert_eq!(from_chars_range(&v, start, v.len()), text.trim_start());
        let end = trim_end_index(&v, 0, v.len());
        assert_eq!(from_chars_range(&v, 0, end), text.trim_end());
    }
    let v = chars("  ab  ");
    assert_eq!(trim_bounds(&v, 1, 5), (2, 4));
}

#[test]
fn lines_agree_with_the_standard_library() {
    for text in ["", "a", "a\n", "\n", "a\n\nb", "a\r\nb\r\n", "a\rb\n", "a\n\r", "\r\n\r\n", "x\r"] {
        let lines: Vec<String> = split_lines(&chars(text)).iter().map(from_chars).collect();
        let expected: Vec<&str> = text.lines().collect();
        assert_eq!(lines, expected, "for {text:?}");
    }
}

#[test]
fn numbers_are_written_in_decimal() {
    for n in [0u128, 7, 10, 99, 100, 12345, u64::MAX as u128, u128::MAX] {
        assert_eq!(decimal_string(n), n.to_string());
    }
    let mut out = chars("n=");
    push_decimal(&mut out, 42);
    assert_eq!(out, chars("n=42"));
}

#[test]
fn ascii_capitals_are_lowered() {
    assert_eq!(to_ascii_lower('A'), 'a');
    assert_eq!(to_ascii_lower('Z'), 'z');
    assert_eq!(to_ascii_lower('a'), 'a');
    assert_eq!(to_ascii_lower('É'), 'É');
    assert_eq!(to_ascii_lower('['), '[');
}
