//! Exact values of the scaled-multiply primitives.
use lowpass::arith::{fmul, mult3};

#[test]
fn fmul_one_times_one() {
    // 1.0 * 1.0 in Q16: the dynamic shift keeps the product exact.
    assert_eq!(fmul(65536, 65536), Some(65536));
}

#[test]
fn fmul_zero_operand() {
    assert_eq!(fmul(0, 12345), Some(0));
    assert_eq!(fmul(12345, 0), Some(0));
}

#[test]
fn fmul_small_values_lose_no_precision() {
    // 2.0 * 3.0 = 6.0 in Q16.
    assert_eq!(fmul(131072, 196608), Some(393216));
}

#[test]
fn fmul_overflow_is_none() {
    assert_eq!(fmul(i32::MAX, i32::MAX), None);
}

#[test]
fn mult3_zero_factor() {
    assert_eq!(mult3(i32::MAX, 0, 5), 0);
    assert_eq!(mult3(0, 0, 0), 0);
}

#[test]
fn mult3_chains_two_fmuls() {
    // 2.0 * 3.0 * 0.5 = 3.0 in Q16.
    assert_eq!(mult3(131072, 196608, 32768), 196608);
}

#[test]
fn mult3_saturates_with_positive_sign() {
    assert_eq!(mult3(i32::MAX, i32::MAX, 65536), i32::MAX);
}

#[test]
fn mult3_saturates_with_negative_sign() {
    assert_eq!(mult3(i32::MIN, i32::MAX, i32::MAX), -i32::MAX);
    assert_eq!(mult3(i32::MIN, i32::MIN, i32::MAX), i32::MAX);
}
