//! The failures that the position ledger reports.

use vstd::prelude::*;

verus! {

/// Why an operation on a position was refused. A refused operation leaves the
/// position exactly as it was.
#[derive(Clone, Copy, Debug, PartialEq, Eq, Structural)]
pub enum ErrorCode {
    /// A fee-only refresh was asked of a position that holds no liquidity.
    NoLiquidity,
    /// The delta would remove more liquidity than the position holds.
    LiquidityUnderflow,
    /// The delta would take the liquidity above `u64::MAX`.
    LiquidityOverflow,
    /// A fee amount, once scaled back from fixed point, does not fit in 64 bits.
    FixedPointConversion,
}

} // verus!
