use nixup::numeral::{fmt_i32, fmt_u32};

#[test]
fn renders_zero() {
    assert_eq!(fmt_u32(0), "0");
    assert_eq!(fmt_i32(0), "0");
}

#[test]
fn renders_single_digits() {
    assert_eq!(fmt_u32(7), "7");
    assert_eq!(fmt_i32(-7), "-7");
}

#[test]
fn renders_multi_digit_numbers() {
    assert_eq!(fmt_u32(10), "10");
    assert_eq!(fmt_u32(255), "255");
    assert_eq!(fmt_u32(1234567890), "1234567890");
}

#[test]
fn renders_extreme_values() {
    assert_eq!(fmt_u32(u32::MAX), "4294967295");
    assert_eq!(fmt_i32(i32::MAX), "2147483647");
    assert_eq!(fmt_i32(i32::MIN), "-2147483648");
}
