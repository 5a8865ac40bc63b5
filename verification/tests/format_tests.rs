use ecommerce::numfmt::cents_to_string;
use ecommerce::numfmt::u64_to_string;

#[test]
fn renders_zero() {
    assert_eq!(u64_to_string(0), "0");
}

#[test]
fn renders_single_digit() {
    assert_eq!(u64_to_string(7), "7");
}

#[test]
fn renders_multi_digit_numbers() {
    assert_eq!(u64_to_string(10), "10");
    assert_eq!(u64_to_string(120), "120");
    assert_eq!(u64_to_string(98765), "98765");
    assert_eq!(u64_to_string(u64::MAX), "18446744073709551615");
}

#[test]
fn renders_money_with_two_decimal_places() {
    assert_eq!(cents_to_string(0), "0.00");
    assert_eq!(cents_to_string(5), "0.05");
    assert_eq!(cents_to_string(50), "0.50");
    assert_eq!(cents_to_string(2500), "25.00");
    assert_eq!(cents_to_string(129999), "1299.99");
    assert_eq!(cents_to_string(100001), "1000.01");
}
