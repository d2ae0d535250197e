//! Signed changes to an unsigned amount of liquidity.

use vstd::prelude::*;
use crate::error::ErrorCode;

verus! {

/// `x + y` over the mathematical integers, where it is a valid amount of
/// liquidity; otherwise the side on which it leaves the 64-bit range.
pub open spec fn liquidity_plus_delta(x: u64, y: i64) -> Result<u64, ErrorCode> {
    if x + y < 0 {
        Err(ErrorCode::LiquidityUnderflow)
    } else if x + y > u64::MAX {
        Err(ErrorCode::LiquidityOverflow)
    } else {
        Ok((x + y) as u64)
    }
}

/// Adds the signed delta `y` to the liquidity `x`. Fails when the sum would be
/// negative or would exceed `u64::MAX`; never wraps.
pub fn add_delta(x: u64, y: i64) -> (r: Result<u64, ErrorCode>)
    ensures
        r == liquidity_plus_delta(x, y),
        r matches Ok(z) ==> z == x + y,
        r == Err::<u64, ErrorCode>(ErrorCode::LiquidityUnderflow) <==> x + y < 0,
        r == Err::<u64, ErrorCode>(ErrorCode::LiquidityOverflow) <==> x + y > u64::MAX,
{
    match x.checked_add_signed(y) {
        Some(z) => Ok(z),
        None => if y < 0 {
            Err(ErrorCode::LiquidityUnderflow)
        } else {
            Err(ErrorCode::LiquidityOverflow)
        },
    }
}

} // verus!
