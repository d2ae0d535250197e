//! Numeric helpers shared by the position ledger.

pub mod fixed_point_32;
pub mod full_math;
pub mod liquidity_math;
