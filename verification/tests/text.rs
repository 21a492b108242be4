use nomoredm::text::{append_decimal, decimal_text};

#[test]
fn decimal_of_zero_is_one_digit() {
    assert_eq!(decimal_text(0), "0");
}

#[test]
fn decimal_of_small_numbers() {
    assert_eq!(decimal_text(7), "7");
    assert_eq!(decimal_text(9), "9");
    assert_eq!(decimal_text(10), "10");
    assert_eq!(decimal_text(42), "42");
    assert_eq!(decimal_text(100), "100");
    assert_eq!(decimal_text(1234567890), "1234567890");
}

#[test]
fn decimal_of_the_largest_number() {
    assert_eq!(decimal_text(u64::MAX), "18446744073709551615");
}

#[test]
fn decimal_agrees_with_the_standard_rendering() {
    let mut n: u64 = 1;
    let mut k: u32 = 0;
    while k < 64 {
        assert_eq!(decimal_text(n), n.to_string());
        assert_eq!(decimal_text(n - 1), (n - 1).to_string());
        n = n.wrapping_mul(2);
        k += 1;
    }
}

#[test]
fn append_decimal_writes_at_the_end() {
    let mut out = String::from("id=");
    append_decimal(&mut out, 305);
    assert_eq!(out, "id=305");
    append_decimal(&mut out, 0);
    assert_eq!(out, "id=3050");
}
