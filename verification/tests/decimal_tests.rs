use raytracing::decimal::{i32_string, u32_string};

#[test]
fn single_digits() {
    assert_eq!(u32_string(0), "0");
    assert_eq!(u32_string(7), "7");
    assert_eq!(u32_string(9), "9");
}

#[test]
fn multi_digit_values() {
    assert_eq!(u32_string(10), "10");
    assert_eq!(u32_string(255), "255");
    assert_eq!(u32_string(1000), "1000");
    assert_eq!(u32_string(u32::MAX), "4294967295");
}

#[test]
fn signed_values() {
    assert_eq!(i32_string(0), "0");
    assert_eq!(i32_string(255), "255");
    assert_eq!(i32_string(-1), "-1");
    assert_eq!(i32_string(-255), "-255");
    assert_eq!(i32_string(i32::MAX), "2147483647");
    assert_eq!(i32_string(i32::MIN), "-2147483648");
}
