use telex::number::{decimal_string, parse_i32, parse_usize};
use telex::text::{chars_of, trim, trim_end};

#[test]
fn parse_i32_accepts_signed_decimals() {
    assert_eq!(parse_i32("42"), Some(42));
    assert_eq!(parse_i32("+42"), Some(42));
    assert_eq!(parse_i32("-42"), Some(-42));
    assert_eq!(parse_i32("0007"), Some(7));
    assert_eq!(parse_i32("2147483647"), Some(i32::MAX));
    assert_eq!(parse_i32("-2147483648"), Some(i32::MIN));
}

#[test]
fn parse_i32_refuses_what_str_parse_refuses() {
    for s in ["", "+", "-", "2147483648", "-2147483649", " 5", "5 ", "5a", "--5", "+-5", "١"] {
        assert_eq!(parse_i32(s), None, "{s:?}");
        assert!(s.parse::<i32>().is_err(), "{s:?}");
    }
}

#[test]
fn parse_i32_agrees_with_std_on_samples() {
    for s in ["0", "-0", "+0", "123456789", "-99999", "99999999999999999999", "300"] {
        assert_eq!(parse_i32(s), s.parse::<i32>().ok(), "{s:?}");
    }
}

#[test]
fn parse_usize_refuses_a_minus_sign() {
    assert_eq!(parse_usize("-0"), None);
    assert_eq!(parse_usize("-5"), None);
    assert_eq!(parse_usize("+5"), Some(5));
    assert_eq!(parse_usize("18446744073709551615"), Some(usize::MAX));
    assert_eq!(parse_usize("18446744073709551616"), None);
}

#[test]
fn decimal_string_writes_numbers() {
    assert_eq!(decimal_string(0), "0");
    assert_eq!(decimal_string(7), "7");
    assert_eq!(decimal_string(12345), "12345");
    assert_eq!(decimal_string(u64::MAX), u64::MAX.to_string());
}

#[test]
fn decimal_string_reads_back() {
    for n in [0u64, 9, 10, 99, 100, 2147483647, 2147483648] {
        let s = decimal_string(n);
        assert_eq!(parse_usize(&s), Some(n as usize));
        assert_eq!(parse_i32(&s), i32::try_from(n).ok());
    }
}

#[test]
fn trimming_follows_std() {
    for s in ["  a b  ", "\r\n", "x\r\n", "\u{3000}x\u{2028}", "\u{85}y\u{a0}", "", "   ", "a\u{200b}"] {
        assert_eq!(trim(s), s.trim(), "{s:?}");
        assert_eq!(trim_end(s), s.trim_end(), "{s:?}");
    }
}

#[test]
fn chars_of_lists_characters() {
    assert_eq!(chars_of("héllo"), vec!['h', 'é', 'l', 'l', 'o']);
}
