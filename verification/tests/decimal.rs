use mopidy_json_rpc::decimal::{i32_decimal, parse_i32, push_decimal};

#[test]
fn push_decimal_appends_the_digits() {
    let mut text = String::from("port ");
    push_decimal(&mut text, 6680);
    assert_eq!(text, "port 6680");
}

#[test]
fn push_decimal_writes_zero_as_one_digit() {
    let mut text = String::new();
    push_decimal(&mut text, 0);
    assert_eq!(text, "0");
}

#[test]
fn push_decimal_writes_the_largest_u64() {
    let mut text = String::new();
    push_decimal(&mut text, u64::MAX);
    assert_eq!(text, "18446744073709551615");
}

#[test]
fn i32_decimal_writes_both_ends_of_the_range() {
    assert_eq!(i32_decimal(i32::MIN), "-2147483648");
    assert_eq!(i32_decimal(i32::MAX), "2147483647");
    assert_eq!(i32_decimal(0), "0");
    assert_eq!(i32_decimal(-1), "-1");
    assert_eq!(i32_decimal(1), "1");
    assert_eq!(i32_decimal(-907), "-907");
}

#[test]
fn parse_i32_reads_what_i32_decimal_writes() {
    for value in [0, 1, -1, 9, 10, 99, 100, -100, 6680, 123456789, i32::MAX, i32::MIN] {
        assert_eq!(parse_i32(&i32_decimal(value)), Some(value));
    }
}

#[test]
fn parse_i32_reads_plain_numbers() {
    assert_eq!(parse_i32("0"), Some(0));
    assert_eq!(parse_i32("1"), Some(1));
    assert_eq!(parse_i32("-17"), Some(-17));
    assert_eq!(parse_i32("2147483647"), Some(2147483647));
    assert_eq!(parse_i32("-2147483648"), Some(-2147483648));
}

#[test]
fn parse_i32_refuses_what_is_out_of_range() {
    assert_eq!(parse_i32("2147483648"), None);
    assert_eq!(parse_i32("-2147483649"), None);
    assert_eq!(parse_i32("3000000000"), None);
    assert_eq!(parse_i32("18446744073709551616"), None);
    assert_eq!(parse_i32("99999999999999999999999999999999999999"), None);
}

#[test]
fn parse_i32_refuses_any_other_notation() {
    assert_eq!(parse_i32(""), None);
    assert_eq!(parse_i32("-"), None);
    assert_eq!(parse_i32("-0"), None);
    assert_eq!(parse_i32("+1"), None);
    assert_eq!(parse_i32("01"), None);
    assert_eq!(parse_i32("00"), None);
    assert_eq!(parse_i32("-01"), None);
    assert_eq!(parse_i32("1.0"), None);
    assert_eq!(parse_i32("1e2"), None);
    assert_eq!(parse_i32(" 1"), None);
    assert_eq!(parse_i32("1 "), None);
    assert_eq!(parse_i32("1-"), None);
    assert_eq!(parse_i32("--1"), None);
    assert_eq!(parse_i32("12a"), None);
    assert_eq!(parse_i32("\u{661}"), None);
    assert_eq!(parse_i32("1\u{e9}"), None);
}
