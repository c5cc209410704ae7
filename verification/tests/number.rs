use inovo_rs::number::{format_fixed, parse_fixed, parse_integer};

#[test]
fn format_keeps_the_places() {
    assert_eq!(format_fixed(12345, 2), "123.45");
    assert_eq!(format_fixed(0, 3), "0.000");
    assert_eq!(format_fixed(7, 0), "7");
    assert_eq!(format_fixed(1000, 3), "1.000");
    assert_eq!(format_fixed(50000, 5), "0.50000");
    assert_eq!(format_fixed(10, 1), "1.0");
}

#[test]
fn format_writes_the_sign_once() {
    assert_eq!(format_fixed(-5, 2), "-0.05");
    assert_eq!(format_fixed(-12345, 2), "-123.45");
    assert_eq!(format_fixed(i64::MIN, 2), "-92233720368547758.08");
    assert_eq!(format_fixed(i64::MAX, 0), "9223372036854775807");
}

#[test]
fn format_with_more_places_than_digits() {
    assert_eq!(format_fixed(5, 20), "0.00000000000000000005");
    assert_eq!(format_fixed(-5, 19), "-0.0000000000000000005");
}

#[test]
fn parse_reads_decimals() {
    assert_eq!(parse_fixed("3.5", 2), Some(350));
    assert_eq!(parse_fixed("12", 2), Some(1200));
    assert_eq!(parse_fixed("+7", 0), Some(7));
    assert_eq!(parse_fixed("-0.25", 2), Some(-25));
    assert_eq!(parse_fixed(".5", 1), Some(5));
    assert_eq!(parse_fixed("5.", 0), Some(5));
    assert_eq!(parse_fixed("0.1", 5), Some(10000));
    assert_eq!(parse_fixed("-0", 2), Some(0));
}

#[test]
fn parse_cuts_the_places_beyond() {
    assert_eq!(parse_fixed("-0.125", 2), Some(-12));
    assert_eq!(parse_fixed("0.999", 2), Some(99));
    assert_eq!(parse_fixed("3.14159265", 5), Some(314159));
    assert_eq!(parse_fixed("2.9", 0), Some(2));
}

#[test]
fn parse_refuses_what_is_no_numeral() {
    assert_eq!(parse_fixed("", 2), None);
    assert_eq!(parse_fixed("-", 2), None);
    assert_eq!(parse_fixed(".", 2), None);
    assert_eq!(parse_fixed("abc", 2), None);
    assert_eq!(parse_fixed("1.2.3", 2), None);
    assert_eq!(parse_fixed("e5", 2), None);
    assert_eq!(parse_fixed("1e", 2), None);
    assert_eq!(parse_fixed("1e+", 2), None);
    assert_eq!(parse_fixed("1e5e5", 2), None);
    assert_eq!(parse_fixed("1e1.5", 2), None);
    assert_eq!(parse_fixed("1e1234567890123456789", 2), None);
    assert_eq!(parse_fixed("inf", 2), None);
    assert_eq!(parse_fixed("NaN", 2), None);
    assert_eq!(parse_fixed("1,5", 2), None);
    assert_eq!(parse_fixed(" 1", 2), None);
    assert_eq!(parse_fixed("--1", 2), None);
    assert_eq!(parse_fixed("1.5x", 0), None);
}

#[test]
fn parse_refuses_what_does_not_fit() {
    assert_eq!(parse_fixed("9223372036854775807", 0), Some(i64::MAX));
    assert_eq!(parse_fixed("9223372036854775808", 0), None);
    assert_eq!(parse_fixed("92233720368547758.07", 2), Some(i64::MAX));
    assert_eq!(parse_fixed("92233720368547758.08", 2), None);
    assert_eq!(parse_fixed("-9223372036854775807", 0), Some(-i64::MAX));
    assert_eq!(parse_fixed("-9223372036854775808", 0), Some(i64::MIN));
    assert_eq!(parse_fixed("-9223372036854775809", 0), None);
    assert_eq!(parse_fixed("-92233720368547758.08", 2), Some(i64::MIN));
    assert_eq!(parse_fixed(&format_fixed(i64::MIN, 3), 3), Some(i64::MIN));
    assert_eq!(parse_fixed("1", 19), None);
    assert_eq!(parse_fixed("0", 30), Some(0));
}

#[test]
fn format_and_parse_agree() {
    for v in [0i64, 1, -1, 99, -100, 123456789, -987654321] {
        for d in [0u8, 1, 2, 3, 5] {
            assert_eq!(parse_fixed(&format_fixed(v, d), d), Some(v));
        }
    }
}

#[test]
fn integers_have_no_point() {
    assert_eq!(parse_integer("42"), Some(42));
    assert_eq!(parse_integer("-42"), Some(-42));
    assert_eq!(parse_integer("+0"), Some(0));
    assert_eq!(parse_integer("4.2"), None);
    assert_eq!(parse_integer("42."), None);
    assert_eq!(parse_integer(""), None);
    assert_eq!(parse_integer("four"), None);
    assert_eq!(parse_integer("1e3"), None);
    assert_eq!(parse_integer("-"), None);
    assert_eq!(parse_integer("9223372036854775808"), None);
    assert_eq!(parse_integer("-9223372036854775808"), Some(i64::MIN));
}

#[test]
fn parse_moves_the_point_by_the_exponent() {
    assert_eq!(parse_fixed("1e5", 2), Some(10000000));
    assert_eq!(parse_fixed("1E5", 0), Some(100000));
    assert_eq!(parse_fixed("1e-05", 5), Some(1));
    assert_eq!(parse_fixed("1e-05", 4), Some(0));
    assert_eq!(parse_fixed("-1.5e-3", 5), Some(-150));
    assert_eq!(parse_fixed("12.345e1", 1), Some(1234));
    assert_eq!(parse_fixed("12.345e+2", 0), Some(1234));
    assert_eq!(parse_fixed("12345e-2", 0), Some(123));
    assert_eq!(parse_fixed("12345e-5", 0), Some(0));
    assert_eq!(parse_fixed("12345e-7", 3), Some(1));
    assert_eq!(parse_fixed("0.00012e4", 0), Some(1));
    assert_eq!(parse_fixed("5e0", 1), Some(50));
    assert_eq!(parse_fixed(".5e1", 0), Some(5));
    assert_eq!(parse_fixed("5.e1", 0), Some(50));
    assert_eq!(parse_fixed("0e999999999999999999", 2), Some(0));
    assert_eq!(parse_fixed("0.000e99", 2), Some(0));
    assert_eq!(parse_fixed("1e-999999999999999999", 2), Some(0));
    assert_eq!(parse_fixed("1e18", 0), Some(1000000000000000000));
    assert_eq!(parse_fixed("1e19", 0), None);
    assert_eq!(parse_fixed("1e40", 0), None);
    assert_eq!(parse_fixed("9.223372036854775807e18", 0), Some(i64::MAX));
    assert_eq!(parse_fixed("9.223372036854775808e18", 0), None);
}

#[test]
fn parse_agrees_with_floats() {
    for text in ["0.1", "3.14159", "-2.5e-3", "1e-05", "123.456", "7", "6.02e3", "-0.00049"] {
        let float: f64 = text.parse().unwrap();
        let fixed = parse_fixed(text, 5).unwrap();
        assert!((fixed as f64 - float * 100000.0).abs() < 1.0);
    }
}
