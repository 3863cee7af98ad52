use rustcade::decimal::parse_decimal;
use rustcade::fixed::LIMIT;

fn parse(s: &str) -> Option<i64> {
    parse_decimal(&s.chars().collect::<Vec<char>>())
}

#[test]
fn whole_numbers() {
    assert_eq!(parse("0"), Some(0));
    assert_eq!(parse("7"), Some(7_000_000));
    assert_eq!(parse("42"), Some(42_000_000));
    assert_eq!(parse("007"), Some(7_000_000));
}

#[test]
fn signs() {
    assert_eq!(parse("-3"), Some(-3_000_000));
    assert_eq!(parse("+3"), Some(3_000_000));
    assert_eq!(parse("-0"), Some(0));
    assert_eq!(parse("-0.5"), Some(-500_000));
}

#[test]
fn fractions() {
    assert_eq!(parse("1.5"), Some(1_500_000));
    assert_eq!(parse("2.25"), Some(2_250_000));
    assert_eq!(parse(".5"), Some(500_000));
    assert_eq!(parse("5."), Some(5_000_000));
    assert_eq!(parse("0.000001"), Some(1));
    assert_eq!(parse("-.000001"), Some(-1));
    assert_eq!(parse("3.141592"), Some(3_141_592));
}

#[test]
fn digits_beyond_the_sixth_are_dropped() {
    assert_eq!(parse("3.1415926535"), Some(3_141_592));
    assert_eq!(parse("0.0000009"), Some(0));
    assert_eq!(parse("-0.9999999"), Some(-999_999));
}

#[test]
fn large_values_are_clamped() {
    assert_eq!(parse("1000000"), Some(LIMIT));
    assert_eq!(parse("1000000.5"), Some(LIMIT));
    assert_eq!(parse("999999.999999"), Some(999_999_999_999));
    assert_eq!(parse("99999999999999999999999999"), Some(LIMIT));
    assert_eq!(parse("-99999999999999999999999999"), Some(-LIMIT));
    assert_eq!(parse("10000000"), Some(LIMIT));
    assert_eq!(parse("9999999"), Some(LIMIT));
}

#[test]
fn what_is_no_number() {
    assert_eq!(parse(""), None);
    assert_eq!(parse("-"), None);
    assert_eq!(parse("+"), None);
    assert_eq!(parse("."), None);
    assert_eq!(parse("-."), None);
    assert_eq!(parse("1.2.3"), None);
    assert_eq!(parse("--1"), None);
    assert_eq!(parse("+-1"), None);
    assert_eq!(parse("1-"), None);
    assert_eq!(parse("1+2"), None);
    assert_eq!(parse("1e5"), None);
    assert_eq!(parse("abc"), None);
    assert_eq!(parse(" 1"), None);
    assert_eq!(parse("1 "), None);
    assert_eq!(parse("1.5x"), None);
    assert_eq!(parse("12345678901234567890x"), None);
}
