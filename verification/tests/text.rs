use civ5_p2p::text::decimal_string;

#[test]
fn decimal_of_zero() {
    assert_eq!(decimal_string(0), "0");
}

#[test]
fn decimal_of_several_digits() {
    assert_eq!(decimal_string(1234567890), "1234567890");
    assert_eq!(decimal_string(10), "10");
    assert_eq!(decimal_string(u128::MAX), "340282366920938463463374607431768211455");
}
