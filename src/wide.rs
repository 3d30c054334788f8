//! Multiply-then-divide of a token amount by a ratio of two time spans,
//! with a 256-bit intermediate so that the product never overflows.
use primitive_types::U256;
use vstd::prelude::*;

verus! {

/// `floor(amount * numer / denom)`, the value a wide multiply-divide yields.
pub open spec fn scaled(amount: int, numer: int, denom: int) -> int {
    amount * numer / denom
}

/// Relies on `primitive_types::U256` (the 256-bit integer of the `uint` crate):
/// `From<u128>` and `From<u64>` keep the value, `Mul` is exact below 2^256 and
/// panics above it, `Div` is floor division and panics on a zero divisor, and
/// `as_u128` returns the value when it fits in 128 bits and panics otherwise.
#[verifier::external_body]
fn wide_mul_div(amount: u128, numer: u64, denom: u64) -> (r: u128)
    requires
        denom > 0,
        (amount as int) * (numer as int) / (denom as int) <= u128::MAX,
    ensures
        r == (amount as int) * (numer as int) / (denom as int),
{
    (U256::from(amount) * U256::from(numer) / U256::from(denom)).as_u128()
}

/// Facts about `scaled` with a ratio at most one.
pub proof fn lemma_scaled_bounds(amount: int, numer: int, denom: int)
    requires
        0 <= amount,
        0 <= numer <= denom,
        0 < denom,
    ensures
        0 <= scaled(amount, numer, denom) <= amount,
{
    assert(0 <= amount * numer) by (nonlinear_arith)
        requires
            0 <= amount,
            0 <= numer,
    ;
    assert(amount * numer <= amount * denom) by (nonlinear_arith)
        requires
            0 <= amount,
            numer <= denom,
    ;
    vstd::arithmetic::div_mod::lemma_div_is_ordered(amount * numer, amount * denom, denom);
    vstd::arithmetic::div_mod::lemma_div_multiples_vanish(amount, denom);
    assert(amount * denom == denom * amount) by (nonlinear_arith);
    vstd::arithmetic::div_mod::lemma_div_is_ordered(0, amount * numer, denom);
}

/// `scaled` grows with its numerator.
pub proof fn lemma_scaled_monotonic(amount: int, n1: int, n2: int, denom: int)
    requires
        0 <= amount,
        n1 <= n2,
        0 < denom,
    ensures
        scaled(amount, n1, denom) <= scaled(amount, n2, denom),
{
    assert(amount * n1 <= amount * n2) by (nonlinear_arith)
        requires
            0 <= amount,
            n1 <= n2,
    ;
    vstd::arithmetic::div_mod::lemma_div_is_ordered(amount * n1, amount * n2, denom);
}

/// `floor(amount * numer / denom)` for a ratio `numer / denom` at most one:
/// the result never exceeds `amount`.
pub fn mul_div_floor(amount: u128, numer: u64, denom: u64) -> (r: u128)
    requires
        0 < denom,
        numer <= denom,
    ensures
        r == scaled(amount as int, numer as int, denom as int),
        r <= amount,
{
    proof {
        lemma_scaled_bounds(amount as int, numer as int, denom as int);
    }
    wide_mul_div(amount, numer, denom)
}

} // verus!
