use singularity::text::{
    chars_equal, chars_of, compare_chars, decimal_string, digit, find_char, six_digit_string, slice_chars,
    string_of, trim_chars, white_space, Comparison,
};

fn chars(s: &str) -> Vec<char> {
    s.chars().collect()
}

#[test]
fn characters_round_trip() {
    assert_eq!(chars_of("héllo"), chars("héllo"));
    assert_eq!(string_of(&chars("añb")), "añb");
    assert_eq!(string_of(&vec![]), "");
}

#[test]
fn numbers_are_written_like_format() {
    for n in [0u64, 7, 10, 99, 100, 12345, u64::MAX] {
        assert_eq!(decimal_string(n), format!("{}", n));
    }
    for n in [0u32, 5, 42, 999999, 1000000, u32::MAX] {
        assert_eq!(six_digit_string(n), format!("{:06}", n));
    }
    assert_eq!(digit(7), '7');
}

#[test]
fn trimming_matches_str_trim() {
    for s in ["", "  ", " a b ", "\t\nx\r\n", "\u{a0}y\u{3000}", "z"] {
        assert_eq!(string_of(&trim_chars(&chars(s))), s.trim());
    }
    for c in [' ', '\t', '\n', '\u{85}', '\u{2028}', 'a', '0', '\u{200b}'] {
        assert_eq!(white_space(c), c.is_whitespace(), "char {c:?}");
    }
}

#[test]
fn comparing_and_searching() {
    assert_eq!(compare_chars(&chars("abc"), &chars("abd")), Comparison::Less);
    assert_eq!(compare_chars(&chars("abc"), &chars("ab")), Comparison::Greater);
    assert_eq!(compare_chars(&chars("abc"), &chars("abc")), Comparison::Equal);
    assert!(chars_equal(&chars("x y"), &chars("x y")));
    assert!(!chars_equal(&chars("x"), &chars("xy")));
    let v = chars("a,b,c");
    assert_eq!(find_char(&v, 0, ','), 1);
    assert_eq!(find_char(&v, 2, ','), 3);
    assert_eq!(find_char(&v, 4, ','), 5);
    assert_eq!(slice_chars(&v, 2, 5), chars("b,c"));
}
