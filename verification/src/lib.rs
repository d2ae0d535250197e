//! Accounting core of a concentrated-liquidity position: how much liquidity an
//! owner holds inside a price range, and which fees that liquidity has earned
//! since the position was last touched.

pub mod error;
pub mod libraries;
pub mod states;
