use wordford::decimal::{format_i64, parse_i64, push_digits};
use wordford::text::{blank, chars_of, starts_with, string_of, trim_bounds, whitespace};

fn trimmed(s: &str) -> String {
    let v = chars_of(s);
    let (from, to) = trim_bounds(&v, 0, v.len());
    string_of(&v, from, to)
}

#[test]
fn white_space_is_the_unicode_property() {
    for code in 0..=0x10FFFFu32 {
        if let Some(c) = char::from_u32(code) {
            assert_eq!(whitespace(c), c.is_whitespace(), "U+{:04X}", code);
        }
    }
}

#[test]
fn characters_and_strings_convert() {
    assert_eq!(chars_of(""), Vec::<char>::new());
    assert_eq!(chars_of("a\u{e9}\u{1f600}"), vec!['a', '\u{e9}', '\u{1f600}']);
    let v = chars_of("hello");
    assert_eq!(string_of(&v, 0, 5), "hello");
    assert_eq!(string_of(&v, 1, 3), "el");
    assert_eq!(string_of(&v, 2, 2), "");
}

#[test]
fn trimming_agrees_with_std() {
    for s in ["", " ", "a", " a", "a ", "  a b  ", "\t\n x \r\n", "\u{3000}x\u{2003}", "   ", "a\u{a0}", "\u{feff}a"] {
        assert_eq!(trimmed(s), s.trim(), "{:?}", s);
        assert_eq!(blank(s), s.trim().is_empty(), "{:?}", s);
    }
}

#[test]
fn trimming_a_part_stays_in_the_part() {
    let v = chars_of("ab  cd  ef");
    assert_eq!(trim_bounds(&v, 2, 8), (4, 6));
    assert_eq!(trim_bounds(&v, 2, 4), (4, 4));
    assert_eq!(trim_bounds(&v, 0, 10), (0, 10));
    assert_eq!(trim_bounds(&v, 3, 3), (3, 3));
}

#[test]
fn prefixes_are_told() {
    let v = chars_of("auth_token=abc");
    assert!(starts_with(&v, 0, v.len(), &chars_of("auth_token=")));
    assert!(starts_with(&v, 0, v.len(), &chars_of("")));
    assert!(starts_with(&v, 0, v.len(), &chars_of("auth_token=abc")));
    assert!(!starts_with(&v, 0, v.len(), &chars_of("auth_token=abcd")));
    assert!(!starts_with(&v, 0, v.len(), &chars_of("Auth")));
    assert!(!starts_with(&v, 0, 4, &chars_of("auth_")));
    assert!(starts_with(&v, 5, v.len(), &chars_of("token")));
}

#[test]
fn integers_are_written_in_decimal() {
    for n in [0i64, 1, 9, 10, 11, 99, 100, 12345, -1, -9, -10, -12345, i64::MAX, i64::MIN, i64::MIN + 1] {
        assert_eq!(format_i64(n), n.to_string());
    }
    assert_eq!(format_i64(0), "0");
    assert_eq!(format_i64(-0), "0");
    assert_eq!(format_i64(i64::MIN), "-9223372036854775808");
    let mut out = "n=".to_string();
    push_digits(&mut out, u64::MAX);
    assert_eq!(out, "n=18446744073709551615");
    push_digits(&mut out, 0);
    assert_eq!(out, "n=184467440737095516150");
}

#[test]
fn integers_are_read_as_std_reads_them() {
    let texts = [
        "", "+", "-", "0", "-0", "+0", "007", "-007", "+7", "42", "-42",
        "9223372036854775807", "9223372036854775808", "+9223372036854775807",
        "-9223372036854775808", "-9223372036854775809", "99999999999999999999999",
        "-99999999999999999999999", "00000000000000000000000000000000000001",
        " 1", "1 ", "1_0", "1e3", "1.0", "--1", "+-1", "-+1", "1-", "abc", "12a", "a12",
        "\u{661}\u{662}", "\u{ff11}", "0x10", "١", "1\n",
    ];
    for text in texts {
        assert_eq!(parse_i64(text), text.parse::<i64>().ok(), "{:?}", text);
    }
    assert_eq!(parse_i64("42"), Some(42));
    assert_eq!(parse_i64("-9223372036854775808"), Some(i64::MIN));
    assert_eq!(parse_i64("9223372036854775808"), None);
}

#[test]
fn decimal_text_reads_back() {
    let mut n: i64 = 1;
    for _ in 0..62 {
        for value in [n, -n, n - 1, 1 - n, n + 1] {
            assert_eq!(parse_i64(&format_i64(value)), Some(value));
        }
        n *= 2;
    }
    for value in [i64::MAX, i64::MIN, 0] {
        assert_eq!(parse_i64(&format_i64(value)), Some(value));
    }
}
