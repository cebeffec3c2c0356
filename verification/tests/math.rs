use abyss_bridge::math::math_abs;
use abyss_bridge::math::math_power;
use abyss_bridge::math::try_abs;
use abyss_bridge::math::try_power;

#[test]
fn power_two_to_ten() {
    assert_eq!(math_power(2, 10), 1024);
}

#[test]
fn power_zero_exponent() {
    assert_eq!(math_power(5, 0), 1);
}

#[test]
fn power_three_cubed() {
    assert_eq!(math_power(3, 3), 27);
}

#[test]
fn power_zero_base() {
    assert_eq!(math_power(0, 0), 1);
    assert_eq!(math_power(0, 5), 0);
}

#[test]
fn power_one_base() {
    assert_eq!(math_power(1, 1000), 1);
}

#[test]
fn power_negative_base() {
    assert_eq!(math_power(-3, 3), -27);
    assert_eq!(math_power(-3, 4), 81);
    assert_eq!(math_power(-1, 1001), -1);
}

#[test]
fn power_largest_fitting() {
    assert_eq!(math_power(2, 62), 4611686018427387904);
    assert_eq!(math_power(-2, 63), i64::MIN);
    assert_eq!(math_power(i64::MAX, 1), i64::MAX);
}

#[test]
fn try_power_rejects_negative_exponent() {
    assert_eq!(try_power(2, -1), None);
    assert_eq!(try_power(0, i64::MIN), None);
}

#[test]
fn try_power_rejects_overflow() {
    assert_eq!(try_power(2, 63), None);
    assert_eq!(try_power(-2, 64), None);
    assert_eq!(try_power(10, 19), None);
    assert_eq!(try_power(i64::MAX, 2), None);
}

#[test]
fn try_power_agrees_on_small_inputs() {
    assert_eq!(try_power(7, 5), Some(16807));
    assert_eq!(try_power(-10, 18), Some(1000000000000000000));
}

#[test]
fn abs_negative() {
    assert_eq!(math_abs(-42), 42);
}

#[test]
fn abs_zero() {
    assert_eq!(math_abs(0), 0);
}

#[test]
fn abs_positive() {
    assert_eq!(math_abs(42), 42);
}

#[test]
fn abs_extremes() {
    assert_eq!(math_abs(i64::MAX), i64::MAX);
    assert_eq!(math_abs(i64::MIN + 1), i64::MAX);
}

#[test]
fn try_abs_rejects_minimum() {
    assert_eq!(try_abs(i64::MIN), None);
}

#[test]
fn try_abs_ordinary_values() {
    assert_eq!(try_abs(-42), Some(42));
    assert_eq!(try_abs(0), Some(0));
    assert_eq!(try_abs(i64::MIN + 1), Some(i64::MAX));
}
