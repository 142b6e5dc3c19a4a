use account_value::decimal::decimal_string;
use account_value::decimal::parse_account_id;

#[test]
fn parses_plain_digits() {
    assert_eq!(parse_account_id("123"), Some(123));
    assert_eq!(parse_account_id("5"), Some(5));
    assert_eq!(parse_account_id("0"), Some(0));
}

#[test]
fn parses_leading_zeros_by_value() {
    assert_eq!(parse_account_id("007"), Some(7));
    assert_eq!(parse_account_id("0000000000000000000000000000000001"), Some(1));
}

#[test]
fn parses_the_largest_identifier() {
    assert_eq!(parse_account_id("18446744073709551615"), Some(u64::MAX));
    assert_eq!(parse_account_id("9223372036854775807"), Some(9223372036854775807));
}

#[test]
fn rejects_a_value_that_does_not_fit() {
    assert_eq!(parse_account_id("18446744073709551616"), None);
    assert_eq!(parse_account_id("18446744073709551620"), None);
    assert_eq!(parse_account_id("99999999999999999999"), None);
    assert_eq!(parse_account_id("100000000000000000000000"), None);
}

#[test]
fn rejects_the_empty_text() {
    assert_eq!(parse_account_id(""), None);
}

#[test]
fn rejects_a_sign() {
    assert_eq!(parse_account_id("+5"), None);
    assert_eq!(parse_account_id("-5"), None);
    assert_eq!(parse_account_id("+"), None);
}

#[test]
fn rejects_other_characters() {
    assert_eq!(parse_account_id("abc"), None);
    assert_eq!(parse_account_id("12a"), None);
    assert_eq!(parse_account_id("a12"), None);
    assert_eq!(parse_account_id("1 2"), None);
    assert_eq!(parse_account_id(" 12"), None);
    assert_eq!(parse_account_id("12 "), None);
    assert_eq!(parse_account_id("1_000"), None);
    assert_eq!(parse_account_id("1,000"), None);
    assert_eq!(parse_account_id("1.5"), None);
    assert_eq!(parse_account_id("0x10"), None);
    assert_eq!(parse_account_id("/"), None);
    assert_eq!(parse_account_id(":"), None);
}

#[test]
fn rejects_digits_outside_ascii() {
    assert_eq!(parse_account_id("١٢٣"), None);
    assert_eq!(parse_account_id("１２３"), None);
    assert_eq!(parse_account_id("12€"), None);
}

#[test]
fn writes_numbers_in_decimal() {
    assert_eq!(decimal_string(0), "0");
    assert_eq!(decimal_string(7), "7");
    assert_eq!(decimal_string(9), "9");
    assert_eq!(decimal_string(10), "10");
    assert_eq!(decimal_string(500), "500");
    assert_eq!(decimal_string(1234567890), "1234567890");
    assert_eq!(decimal_string(u64::MAX), "18446744073709551615");
}

#[test]
fn reads_back_what_it_wrote() {
    let samples: [u64; 9] = [0, 1, 9, 10, 99, 100, 4096, 9223372036854775807, u64::MAX];
    for n in samples {
        assert_eq!(parse_account_id(&decimal_string(n)), Some(n));
    }
}

#[test]
fn writes_every_digit() {
    assert_eq!(decimal_string(1023456789), "1023456789");
    assert_eq!(decimal_string(9876543210), "9876543210");
}
