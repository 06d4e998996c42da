use overlay::text::{decimal_string, signed_decimal_string};

#[test]
fn decimal_of_zero() {
    assert_eq!(decimal_string(0), "0");
}

#[test]
fn decimal_of_single_digits() {
    assert_eq!(decimal_string(1), "1");
    assert_eq!(decimal_string(7), "7");
    assert_eq!(decimal_string(9), "9");
}

#[test]
fn decimal_across_powers_of_ten() {
    assert_eq!(decimal_string(10), "10");
    assert_eq!(decimal_string(99), "99");
    assert_eq!(decimal_string(100), "100");
    assert_eq!(decimal_string(1_000), "1000");
    assert_eq!(decimal_string(1_000_000_000), "1000000000");
}

#[test]
fn decimal_keeps_inner_zeros() {
    assert_eq!(decimal_string(1_020_304), "1020304");
    assert_eq!(decimal_string(3_840), "3840");
}

#[test]
fn decimal_of_the_largest_number() {
    assert_eq!(decimal_string(u32::MAX), "4294967295");
}

#[test]
fn decimal_agrees_with_the_standard_library() {
    let mut n: u32 = 0;
    while n < 5_000 {
        assert_eq!(decimal_string(n), n.to_string());
        n += 1;
    }
    let mut n: u32 = 1;
    while n < 1_000_000_000 {
        assert_eq!(decimal_string(n), n.to_string());
        assert_eq!(decimal_string(n - 1), (n - 1).to_string());
        n *= 7;
    }
}

#[test]
fn signed_decimal_of_non_negative_numbers() {
    assert_eq!(signed_decimal_string(0), "0");
    assert_eq!(signed_decimal_string(42), "42");
    assert_eq!(signed_decimal_string(i32::MAX), "2147483647");
}

#[test]
fn signed_decimal_of_negative_numbers() {
    assert_eq!(signed_decimal_string(-1), "-1");
    assert_eq!(signed_decimal_string(-1920), "-1920");
    assert_eq!(signed_decimal_string(i32::MIN), "-2147483648");
}
