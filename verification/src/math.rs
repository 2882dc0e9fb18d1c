use vstd::prelude::*;

verus! {

/// Errors of checked integer arithmetic.
#[derive(Debug, PartialEq, Eq, Structural, Clone, Copy)]
pub enum MathError {
    Overflow,
    Underflow,
    DivByZero,
}

} // verus!

use ethnum::U256;

verus! {

/// The quotient rounded down is the largest `q` with `q * d <= p`.
pub proof fn lemma_floor_div_bounds(p: int, d: int)
    requires
        p >= 0,
        d > 0,
    ensures
        (p / d) * d <= p,
        p < (p / d + 1) * d,
        p / d >= 0,
{
    vstd::arithmetic::div_mod::lemma_fundamental_div_mod(p, d);
    vstd::arithmetic::div_mod::lemma_mod_pos_bound(p, d);
    vstd::arithmetic::div_mod::lemma_div_pos_is_pos(p, d);
    let q = p / d;
    assert(d * q == q * d) by (nonlinear_arith);
    assert((q + 1) * d == q * d + d) by (nonlinear_arith);
}

/// 2^128: the weight of the high word of a 256-bit integer.
pub open spec fn word() -> int {
    0x1_0000_0000_0000_0000_0000_0000_0000_0000int
}

/// The value of a 256-bit integer given by its high and low words.
pub open spec fn wide(hi: u128, lo: u128) -> int {
    hi * word() + lo
}

/// `U256::checked_mul` of ethnum on two values that fit in 128 bits, the
/// operands and the product written as (high, low) word pairs. ethnum
/// returns `None` only when the product exceeds 256 bits, which the product
/// of two 128-bit values never does; the contract claims the exact product.
#[verifier::external_body]
pub(crate) fn u256_checked_mul(x: u128, y: u128) -> (r: Option<(u128, u128)>)
    ensures
        r is Some,
        wide(r.unwrap().0, r.unwrap().1) == x * y,
{
    match U256::new(x).checked_mul(U256::new(y)) {
        Some(p) => Some(p.into_words()),
        None => None,
    }
}

/// `U256::checked_div` of ethnum: the truncating quotient of a 256-bit value
/// by a 128-bit divisor, `None` exactly when the divisor is zero.
#[verifier::external_body]
pub(crate) fn u256_checked_div(hi: u128, lo: u128, d: u128) -> (r: Option<(u128, u128)>)
    ensures
        r is None <==> d == 0,
        r is Some ==> wide(r.unwrap().0, r.unwrap().1) == wide(hi, lo) / (d as int),
{
    match U256::from_words(hi, lo).checked_div(U256::new(d)) {
        Some(q) => Some(q.into_words()),
        None => None,
    }
}

/// The remainder operator `%` of ethnum's `U256`, for a nonzero divisor.
#[verifier::external_body]
pub(crate) fn u256_rem(hi: u128, lo: u128, d: u128) -> (r: (u128, u128))
    requires
        d != 0,
    ensures
        wide(r.0, r.1) == wide(hi, lo) % (d as int),
{
    (U256::from_words(hi, lo) % U256::new(d)).into_words()
}

/// `u128::try_from(U256)` as ethnum implements it: `Ok` with the low word when
/// the value fits in 128 bits, an error otherwise (here `None`).
#[verifier::external_body]
pub(crate) fn u256_to_u128(hi: u128, lo: u128) -> (r: Option<u128>)
    ensures
        r == (if hi == 0 { Some(lo) } else { None::<u128> }),
{
    u128::try_from(U256::from_words(hi, lo)).ok()
}

} // verus!
