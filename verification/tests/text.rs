use cursory::text::{
    chars_of, i32_to_string, is_blank, parse_i32, parse_i32_trimmed, parse_usize,
    trim_bounds, u64_to_string, usize_to_string,
};

fn p32(s: &str) -> Option<i32> {
    parse_i32(&chars_of(s))
}

fn pus(s: &str) -> Option<usize> {
    parse_usize(&chars_of(s))
}

#[test]
fn i32_numerals_follow_str_parse() {
    assert_eq!(p32("0"), Some(0));
    assert_eq!(p32("42"), Some(42));
    assert_eq!(p32("+42"), Some(42));
    assert_eq!(p32("-42"), Some(-42));
    assert_eq!(p32("007"), Some(7));
    assert_eq!(p32("2147483647"), Some(i32::MAX));
    assert_eq!(p32("-2147483648"), Some(i32::MIN));
    assert_eq!(p32("2147483648"), None);
    assert_eq!(p32("-2147483649"), None);
    assert_eq!(p32("99999999999999999999"), None);
    assert_eq!(p32(""), None);
    assert_eq!(p32("-"), None);
    assert_eq!(p32("+"), None);
    assert_eq!(p32("+-1"), None);
    assert_eq!(p32(" 1"), None);
    assert_eq!(p32("1a"), None);
    assert_eq!(p32("١"), None);
    for s in ["0", "-0", "+7", "123", "-2147483648", "x", "", "-", "99999999999"] {
        assert_eq!(p32(s), s.parse::<i32>().ok(), "{s:?}");
    }
}

#[test]
fn usize_numerals_follow_str_parse() {
    assert_eq!(pus("3"), Some(3));
    assert_eq!(pus("+3"), Some(3));
    assert_eq!(pus("-0"), None);
    assert_eq!(pus("-3"), None);
    assert_eq!(pus(""), None);
    for s in ["0", "18446744073709551615", "18446744073709551616", "-1", "+", "12"] {
        assert_eq!(pus(s), s.parse::<usize>().ok(), "{s:?}");
    }
}

#[test]
fn trimming_matches_str_trim() {
    for s in ["  a b  ", "\t\r\n x\u{3000}", "", "   ", "\u{a0}y\u{2029}", "z"] {
        let c = chars_of(s);
        let (a, b) = trim_bounds(&c, 0, c.len());
        let got: String = c[a..b].iter().collect();
        assert_eq!(got, s.trim(), "{s:?}");
    }
    assert!(is_blank(" \t "));
    assert!(is_blank(""));
    assert!(!is_blank(" 0 "));
    assert_eq!(parse_i32_trimmed("  -12 \n"), Some(-12));
}

#[test]
fn decimal_rendering_matches_to_string() {
    for v in [0, 5, -5, 10, 1234, -1000, i32::MAX, i32::MIN] {
        assert_eq!(i32_to_string(v), v.to_string());
    }
    for v in [0u64, 9, 10, 99, 100, u64::MAX] {
        assert_eq!(u64_to_string(v), v.to_string());
    }
    assert_eq!(usize_to_string(640), "640");
}

#[test]
fn rendered_numbers_parse_back() {
    for v in [0, 1, -1, 300, -300, i32::MAX, i32::MIN] {
        assert_eq!(p32(&i32_to_string(v)), Some(v));
    }
}
