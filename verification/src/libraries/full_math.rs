//! Multiply-then-divide without intermediate overflow.

use vstd::prelude::*;

verus! {

/// `floor(a * b / denominator)` over the mathematical integers, where it is
/// defined and fits in 64 bits.
pub open spec fn floor_mul_div(a: u64, b: u64, denominator: u64) -> Option<u64> {
    if denominator == 0 || (a * b) / (denominator as int) > u64::MAX {
        None
    } else {
        Some(((a * b) / (denominator as int)) as u64)
    }
}

/// The product of two 64-bit values fits in 128 bits.
proof fn lemma_product_fits_u128(a: u64, b: u64)
    ensures
        0 <= a * b <= u128::MAX,
{
    assert(0 <= a * b <= 0xffff_ffff_ffff_ffff * 0xffff_ffff_ffff_ffff) by (nonlinear_arith)
        requires
            0 <= a <= 0xffff_ffff_ffff_ffff,
            0 <= b <= 0xffff_ffff_ffff_ffff,
    ;
}

/// Computes `floor(a * b / denominator)` with a 128-bit intermediate, so that
/// the product never overflows. Returns `None` when the denominator is zero or
/// the quotient does not fit in 64 bits.
pub fn mul_div_floor(a: u64, b: u64, denominator: u64) -> (r: Option<u64>)
    ensures
        r == floor_mul_div(a, b, denominator),
        r is None <==> denominator == 0 || (a * b) / (denominator as int) > u64::MAX,
        r matches Some(q) ==> q == (a * b) / (denominator as int),
{
    if denominator == 0 {
        return None;
    }
    proof {
        lemma_product_fits_u128(a, b);
    }
    let product: u128 = (a as u128) * (b as u128);
    let quotient: u128 = product / (denominator as u128);
    if quotient > u64::MAX as u128 {
        None
    } else {
        Some(quotient as u64)
    }
}

} // verus!
