//! Q32 fixed point: an unsigned integer `v` stands for the real number `v / 2^32`.

use vstd::prelude::*;

verus! {

/// The scale of the encoding, `2^32`: the fixed-point form of one.
pub const Q32: u64 = 0x1_0000_0000;

} // verus!
