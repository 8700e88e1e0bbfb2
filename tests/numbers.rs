use cir::text::{render_radix, render_signed};

#[test]
fn decimal_and_hex() {
    assert_eq!(render_radix(0, false), "0");
    assert_eq!(render_radix(1234567890, false), "1234567890");
    assert_eq!(render_radix(255, true), "ff");
    assert_eq!(render_radix(0, true), "0");
    assert_eq!(render_radix(u64::MAX, true), "ffffffffffffffff");
    assert_eq!(render_radix(u64::MAX, false), "18446744073709551615");
}

#[test]
fn signed_decimal() {
    assert_eq!(render_signed(-5), "-5");
    assert_eq!(render_signed(42), "42");
    assert_eq!(render_signed(i64::MIN), "-9223372036854775808");
}
