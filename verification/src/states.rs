//! The records that the ledger keeps.

pub mod position;
pub mod position_laws;
