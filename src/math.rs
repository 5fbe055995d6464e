//! Checked fixed-point arithmetic shared by every other component.
use vstd::prelude::*;
use crate::errors::VaultError;

verus! {

/// The outcome of `a * b / c` over the integers, floor-rounded, when it is to
/// be stored as a `u64`: `MathOverflow` when `c` is zero or the quotient does
/// not fit.
pub open spec fn mul_div_spec(a: int, b: int, c: int) -> Result<u64, VaultError> {
    if c == 0 || a * b / c > u64::MAX {
        Err(VaultError::MathOverflow)
    } else {
        Ok((a * b / c) as u64)
    }
}

proof fn lemma_u64_product_fits(a: u64, b: u64)
    ensures
        0 <= (a as int) * (b as int) <= u128::MAX,
{
    assert(0 <= (a as int) * (b as int) <= (u64::MAX as int) * (u64::MAX as int)) by (nonlinear_arith)
        requires
            a <= u64::MAX,
            b <= u64::MAX,
    ;
}

/// `a * b / c` with a 128-bit intermediate product, so that the multiply
/// itself never overflows; fails only when `c` is zero or the quotient does
/// not fit in a `u64`.
pub fn mul_div(a: u64, b: u64, c: u64) -> (r: Result<u64, VaultError>)
    ensures
        r == mul_div_spec(a as int, b as int, c as int),
{
    if c == 0 {
        return Err(VaultError::MathOverflow);
    }
    proof {
        lemma_u64_product_fits(a, b);
    }
    let product: u128 = (a as u128) * (b as u128);
    let quotient: u128 = product / (c as u128);
    if quotient > u64::MAX as u128 {
        Err(VaultError::MathOverflow)
    } else {
        Ok(quotient as u64)
    }
}

} // verus!
