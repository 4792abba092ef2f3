use snowfall_core::{comma_string, format_number, to_comma_string};

#[test]
fn test_small_numbers() {
    assert_eq!(to_comma_string(0), "0");
    assert_eq!(to_comma_string(5), "5");
    assert_eq!(to_comma_string(12), "12");
    assert_eq!(to_comma_string(999), "999");
}

#[test]
fn test_thousands() {
    assert_eq!(to_comma_string(1000), "1,000");
    assert_eq!(to_comma_string(1234), "1,234");
    assert_eq!(to_comma_string(9999), "9,999");
}

#[test]
fn test_millions() {
    assert_eq!(to_comma_string(1000000), "1,000,000");
    assert_eq!(to_comma_string(1234567), "1,234,567");
}

#[test]
fn test_large_numbers() {
    assert_eq!(to_comma_string(9876543210u64), "9,876,543,210");
}

#[test]
fn test_negative_numbers() {
    assert_eq!(to_comma_string(-1000), "-1,000");
    assert_eq!(to_comma_string(-1234567), "-1,234,567");
}

#[test]
fn test_string_input() {
    assert_eq!(to_comma_string("1234567"), "1,234,567");
}

#[test]
fn test_decimals() {
    assert_eq!(to_comma_string(0.1), "0.1");
    assert_eq!(to_comma_string(-0.1), "-0.1");
    assert_eq!(to_comma_string(1005.2), "1,005.2");
    assert_eq!(to_comma_string(-1005.2), "-1,005.2");
}

#[test]
fn comma_string_keeps_fraction_and_sign() {
    assert_eq!(comma_string("1234.5678"), "1,234.5678");
    assert_eq!(comma_string("-1234567.25"), "-1,234,567.25");
    assert_eq!(comma_string("-"), "-");
    assert_eq!(comma_string(""), "");
    assert_eq!(comma_string("123456"), "123,456");
}

#[test]
fn number_tag_groups_integers() {
    assert_eq!(format_number("-1234567"), "-1,234,567");
    assert_eq!(format_number("1000000"), "1,000,000");
    assert_eq!(format_number("9876543210"), "9,876,543,210");
    assert_eq!(format_number("+42"), "42");
    assert_eq!(format_number("007"), "7");
    assert_eq!(format_number("-0"), "0");
    assert_eq!(format_number("9223372036854775807"), "9,223,372,036,854,775,807");
    assert_eq!(format_number("-9223372036854775808"), "-9,223,372,036,854,775,808");
}

#[test]
fn number_tag_leaves_non_integers() {
    assert_eq!(format_number("0.1"), "0.1");
    assert_eq!(format_number("abc"), "abc");
    assert_eq!(format_number(""), "");
    assert_eq!(format_number("-"), "-");
    assert_eq!(format_number("12a"), "12a");
    assert_eq!(format_number("9223372036854775808"), "9223372036854775808");
    assert_eq!(format_number("-9223372036854775809"), "-9223372036854775809");
}
