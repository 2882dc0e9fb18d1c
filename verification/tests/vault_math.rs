use pendzl_contracts::math::MathError;
use pendzl_contracts::token::psp22::vault::{mul_div, Rounding};

#[test]
fn test_mul_div() {
    let x = 1_000_000_000_000_u128;
    assert_eq!(mul_div(x, x, 2 * x, Rounding::Down), Ok(x / 2));
}

#[test]
fn round_up() {
    assert_eq!(mul_div(100, 100, 1000, Rounding::Up), Ok(10));
    assert_eq!(mul_div(101, 100, 1000, Rounding::Up), Ok(11));
    assert_eq!(mul_div(3643, 6393, 11645, Rounding::Up), Ok(2000));
}

#[test]
fn round_down() {
    assert_eq!(mul_div(4000, 2001, 2001, Rounding::Down), Ok(4000));
}

#[test]
fn mul_div_by_zero_fails() {
    assert_eq!(mul_div(1, 1, 0, Rounding::Down), Err(MathError::DivByZero));
}

#[test]
fn mul_div_zero_operand_is_zero() {
    assert_eq!(mul_div(0, 5, 3, Rounding::Up), Ok(0));
    assert_eq!(mul_div(5, 0, 3, Rounding::Up), Ok(0));
}

#[test]
fn mul_div_wide_product_fits() {
    // (2^128 - 1) * (2^128 - 1) / (2^128 - 1) needs 256 bits in the middle.
    assert_eq!(mul_div(u128::MAX, u128::MAX, u128::MAX, Rounding::Down), Ok(u128::MAX));
    assert_eq!(mul_div(u128::MAX, 3, 4, Rounding::Down), Ok(u128::MAX / 4 * 3 + 2));
}

#[test]
fn mul_div_overflow() {
    assert_eq!(mul_div(u128::MAX, 2, 1, Rounding::Down), Err(MathError::Overflow));
    // The quotient is exactly u128::MAX, rounding it up overflows.
    assert_eq!(mul_div(u128::MAX, 2, 2, Rounding::Up), Ok(u128::MAX));
    assert_eq!(mul_div(u128::MAX, 3, 2, Rounding::Up), Err(MathError::Overflow));
}
