use counter_contract::decimal::i32_to_decimal;

#[test]
fn renders_zero() {
    assert_eq!(i32_to_decimal(0), "0");
}

#[test]
fn renders_single_digits() {
    assert_eq!(i32_to_decimal(7), "7");
    assert_eq!(i32_to_decimal(9), "9");
}

#[test]
fn renders_multi_digit_values() {
    assert_eq!(i32_to_decimal(42), "42");
    assert_eq!(i32_to_decimal(100), "100");
    assert_eq!(i32_to_decimal(90210), "90210");
}

#[test]
fn renders_negative_values() {
    assert_eq!(i32_to_decimal(-1), "-1");
    assert_eq!(i32_to_decimal(-7), "-7");
    assert_eq!(i32_to_decimal(-30500), "-30500");
}

#[test]
fn renders_the_extremes() {
    assert_eq!(i32_to_decimal(i32::MAX), "2147483647");
    assert_eq!(i32_to_decimal(i32::MIN), "-2147483648");
}
