use kommemeorate::text::parse_i32;
use kommemeorate::text::push_boolean;
use kommemeorate::text::push_decimal;
use kommemeorate::text::push_quoted;
use kommemeorate::text::push_quoted_option;

fn decimal(n: i64) -> String {
    let mut out = String::new();
    push_decimal(&mut out, n);
    out
}

#[test]
fn decimal_of_small_numbers() {
    assert_eq!(decimal(0), "0");
    assert_eq!(decimal(7), "7");
    assert_eq!(decimal(10), "10");
    assert_eq!(decimal(42), "42");
    assert_eq!(decimal(-1), "-1");
    assert_eq!(decimal(-120), "-120");
}

#[test]
fn decimal_of_the_extremes() {
    assert_eq!(decimal(i64::MAX), "9223372036854775807");
    assert_eq!(decimal(i64::MIN), "-9223372036854775808");
    assert_eq!(decimal(i32::MIN as i64), "-2147483648");
    assert_eq!(decimal(u32::MAX as i64), "4294967295");
}

#[test]
fn decimal_agrees_with_the_standard_formatter() {
    for n in [-1000_i64, -999, -11, -10, -9, 0, 9, 10, 11, 99, 100, 101, 123_456_789] {
        assert_eq!(decimal(n), format!("{}", n));
    }
}

#[test]
fn decimal_is_appended() {
    let mut out = String::from("id: ");
    push_decimal(&mut out, 5);
    push_decimal(&mut out, -6);
    assert_eq!(out, "id: 5-6");
}

#[test]
fn boolean_words() {
    let mut out = String::new();
    push_boolean(&mut out, true);
    out.push(' ');
    push_boolean(&mut out, false);
    assert_eq!(out, "true false");
}

#[test]
fn parse_plain_numbers() {
    assert_eq!(parse_i32("0"), Some(0));
    assert_eq!(parse_i32("12345"), Some(12345));
    assert_eq!(parse_i32("007"), Some(7));
    assert_eq!(parse_i32("+15"), Some(15));
    assert_eq!(parse_i32("-15"), Some(-15));
    assert_eq!(parse_i32("-0"), Some(0));
}

#[test]
fn parse_the_limits() {
    assert_eq!(parse_i32("2147483647"), Some(i32::MAX));
    assert_eq!(parse_i32("-2147483648"), Some(i32::MIN));
    assert_eq!(parse_i32("2147483648"), None);
    assert_eq!(parse_i32("-2147483649"), None);
    assert_eq!(parse_i32("99999999999999999999999999"), None);
}

#[test]
fn parse_refuses_what_is_no_number() {
    assert_eq!(parse_i32(""), None);
    assert_eq!(parse_i32("-"), None);
    assert_eq!(parse_i32("+"), None);
    assert_eq!(parse_i32("12a"), None);
    assert_eq!(parse_i32("a12"), None);
    assert_eq!(parse_i32(" 12"), None);
    assert_eq!(parse_i32("12\n"), None);
    assert_eq!(parse_i32("1 2"), None);
    assert_eq!(parse_i32("--1"), None);
    assert_eq!(parse_i32("1-"), None);
    assert_eq!(parse_i32("١٢"), None);
}

#[test]
fn parse_agrees_with_the_standard_parser() {
    for text in ["0", "-1", "+1", "2147483647", "2147483648", "", "x", "1x", "+-1", "0000000000001"] {
        assert_eq!(parse_i32(text), text.parse::<i32>().ok());
    }
}

#[test]
fn parse_reads_back_what_decimal_writes() {
    for n in [i32::MIN, -1, 0, 1, 42, i32::MAX] {
        assert_eq!(parse_i32(&decimal(n as i64)), Some(n));
    }
}

#[test]
fn quoted_text_stands_in_double_quotes() {
    let mut out = String::from("name: ");
    push_quoted(&mut out, "memes");
    assert_eq!(out, "name: \"memes\"");
}

#[test]
fn quoted_text_escapes_what_cannot_stand_in_a_literal() {
    let mut out = String::new();
    push_quoted(&mut out, "a\"b\\c\n");
    assert_eq!(out, "\"a\\\"b\\\\c\\n\"");
}

#[test]
fn quoted_option() {
    let mut out = String::new();
    push_quoted_option(&mut out, &Some("x".to_string()));
    out.push(' ');
    push_quoted_option(&mut out, &None);
    assert_eq!(out, "Some(\"x\") None");
}
