//! A position is an owner's liquidity between a lower and an upper price
//! boundary, together with the bookkeeping of the fees owed to that owner.

use vstd::prelude::*;
use anchor_lang::prelude::Pubkey;
use crate::error::ErrorCode;
use crate::libraries::fixed_point_32;
use crate::libraries::full_math;
use crate::libraries::liquidity_math;

verus! {

/// Seed from which the address of a position record is derived.
pub const POSITION_SEED: &'static str = "ps";

/// What is stored for each position. The record is found by its seed, the two
/// tokens, the fee tier, the owner and the two boundaries of the range.
#[derive(Clone, Copy, Debug, PartialEq, Eq, Structural)]
pub struct PositionState {
    /// Bump of the derived address.
    pub bump: u8,
    /// The amount of liquidity owned by this position.
    pub liquidity: u64,
    /// Fee growth of token 0 per unit of liquidity, in Q32, as of the last update.
    pub fee_growth_inside_0_last_x32: u64,
    /// Fee growth of token 1 per unit of liquidity, in Q32, as of the last update.
    pub fee_growth_inside_1_last_x32: u64,
    /// Fees owed to the owner in token 0, not yet withdrawn.
    pub tokens_owed_0: u64,
    /// Fees owed to the owner in token 1, not yet withdrawn.
    pub tokens_owed_1: u64,
}

impl Default for PositionState {
    /// The record as it is created: no liquidity, nothing owed, both
    /// snapshots at zero.
    fn default() -> (p: PositionState)
        ensures
            p == (PositionState {
                bump: 0,
                liquidity: 0,
                fee_growth_inside_0_last_x32: 0,
                fee_growth_inside_1_last_x32: 0,
                tokens_owed_0: 0,
                tokens_owed_1: 0,
            }),
    {
        PositionState {
            bump: 0,
            liquidity: 0,
            fee_growth_inside_0_last_x32: 0,
            fee_growth_inside_1_last_x32: 0,
            tokens_owed_0: 0,
            tokens_owed_1: 0,
        }
    }
}

/// The number of values of a `u64`, `2^64`.
pub open spec fn two_pow_64() -> int {
    0x1_0000_0000_0000_0000
}

/// How far an accumulator has advanced since a snapshot of it, modulo `2^64`:
/// an accumulator that has wrapped around still gives the distance travelled.
pub open spec fn growth_since(now_x32: u64, last_x32: u64) -> int {
    (now_x32 - last_x32) % two_pow_64()
}

/// The fee, in whole tokens, that `liquidity` units earn while the accumulator
/// advances from `last_x32` to `now_x32`: `floor(growth * liquidity / 2^32)`.
pub open spec fn fee_earned(now_x32: u64, last_x32: u64, liquidity: u64) -> int {
    (growth_since(now_x32, last_x32) * liquidity) / 0x1_0000_0000
}

impl PositionState {
    /// Fee in token 0 that the position has earned up to the accumulator value
    /// given, on the liquidity it holds now.
    pub open spec fn fee_due_0(self, fee_growth_inside_0_x32: u64) -> int {
        fee_earned(fee_growth_inside_0_x32, self.fee_growth_inside_0_last_x32, self.liquidity)
    }

    /// Fee in token 1 that the position has earned up to the accumulator value
    /// given, on the liquidity it holds now.
    pub open spec fn fee_due_1(self, fee_growth_inside_1_x32: u64) -> int {
        fee_earned(fee_growth_inside_1_x32, self.fee_growth_inside_1_last_x32, self.liquidity)
    }

    /// Why an update with these arguments is refused, if it is. Where several
    /// reasons hold, the first of these is reported: a refresh of an empty
    /// position, the liquidity leaving the 64-bit range, a fee that does not
    /// fit in 64 bits.
    pub open spec fn update_error(
        self,
        liquidity_delta: i64,
        fee_growth_inside_0_x32: u64,
        fee_growth_inside_1_x32: u64,
    ) -> Option<ErrorCode> {
        if liquidity_delta == 0 && self.liquidity == 0 {
            Some(ErrorCode::NoLiquidity)
        } else if self.liquidity + liquidity_delta < 0 {
            Some(ErrorCode::LiquidityUnderflow)
        } else if self.liquidity + liquidity_delta > u64::MAX {
            Some(ErrorCode::LiquidityOverflow)
        } else if self.fee_due_0(fee_growth_inside_0_x32) > u64::MAX
            || self.fee_due_1(fee_growth_inside_1_x32) > u64::MAX {
            Some(ErrorCode::FixedPointConversion)
        } else {
            None
        }
    }

    /// The position after an update that is not refused: the delta is applied
    /// to the liquidity, both snapshots take the accumulator values given, and
    /// the fees earned on the liquidity held before the update are added to the
    /// owed totals modulo `2^64`.
    pub open spec fn updated(
        self,
        liquidity_delta: i64,
        fee_growth_inside_0_x32: u64,
        fee_growth_inside_1_x32: u64,
    ) -> PositionState {
        PositionState {
            bump: self.bump,
            liquidity: (self.liquidity + liquidity_delta) as u64,
            fee_growth_inside_0_last_x32: fee_growth_inside_0_x32,
            fee_growth_inside_1_last_x32: fee_growth_inside_1_x32,
            tokens_owed_0: ((self.tokens_owed_0 + self.fee_due_0(fee_growth_inside_0_x32))
                % two_pow_64()) as u64,
            tokens_owed_1: ((self.tokens_owed_1 + self.fee_due_1(fee_growth_inside_1_x32))
                % two_pow_64()) as u64,
        }
    }

    /// Credits the fees accumulated since the last update to the position and
    /// applies a change of liquidity.
    ///
    /// * `liquidity_delta` - liquidity to add (positive), to remove (negative),
    ///   or zero to refresh the fees only
    /// * `fee_growth_inside_0_x32` - all-time fee growth in token 0, per unit of
    ///   liquidity, inside the position's boundaries
    /// * `fee_growth_inside_1_x32` - the same for token 1
    ///
    /// The fees are computed on the liquidity held before the call. A refused
    /// update leaves the position untouched.
    pub fn update(
        &mut self,
        liquidity_delta: i64,
        fee_growth_inside_0_x32: u64,
        fee_growth_inside_1_x32: u64,
    ) -> (r: Result<(), ErrorCode>)
        ensures
            match old(self).update_error(
                liquidity_delta,
                fee_growth_inside_0_x32,
                fee_growth_inside_1_x32,
            ) {
                Some(e) => r == Err::<(), ErrorCode>(e) && *final(self) == *old(self),
                None => r is Ok && *final(self) == old(self).updated(
                    liquidity_delta,
                    fee_growth_inside_0_x32,
                    fee_growth_inside_1_x32,
                ),
            },
            liquidity_delta == 0 && old(self).liquidity == 0 ==> r == Err::<(), ErrorCode>(
                ErrorCode::NoLiquidity,
            ),
            r is Ok ==> final(self).liquidity == old(self).liquidity + liquidity_delta,
            r is Ok ==> final(self).fee_growth_inside_0_last_x32 == fee_growth_inside_0_x32
                && final(self).fee_growth_inside_1_last_x32 == fee_growth_inside_1_x32,
            r is Ok ==> final(self).tokens_owed_0 == (old(self).tokens_owed_0 + fee_earned(
                fee_growth_inside_0_x32,
                old(self).fee_growth_inside_0_last_x32,
                old(self).liquidity,
            )) % two_pow_64(),
            r is Ok ==> final(self).tokens_owed_1 == (old(self).tokens_owed_1 + fee_earned(
                fee_growth_inside_1_x32,
                old(self).fee_growth_inside_1_last_x32,
                old(self).liquidity,
            )) % two_pow_64(),
            r is Ok ==> final(self).bump == old(self).bump,
            r is Err ==> *final(self) == *old(self),
    {
        let liquidity_next: u64 = if liquidity_delta == 0 {
            if self.liquidity == 0 {
                return Err(ErrorCode::NoLiquidity);
            }
            self.liquidity
        } else {
            match liquidity_math::add_delta(self.liquidity, liquidity_delta) {
                Ok(next) => next,
                Err(e) => {
                    return Err(e);
                },
            }
        };

        // The fees are earned by the liquidity that was in the range while the
        // accumulators advanced, so they are computed before it changes.
        let growth_0: u64 = fee_growth_inside_0_x32.wrapping_sub(self.fee_growth_inside_0_last_x32);
        let growth_1: u64 = fee_growth_inside_1_x32.wrapping_sub(self.fee_growth_inside_1_last_x32);
        let tokens_owed_0: u64 = match full_math::mul_div_floor(
            growth_0,
            self.liquidity,
            fixed_point_32::Q32,
        ) {
            Some(fee) => fee,
            None => {
                return Err(ErrorCode::FixedPointConversion);
            },
        };
        let tokens_owed_1: u64 = match full_math::mul_div_floor(
            growth_1,
            self.liquidity,
            fixed_point_32::Q32,
        ) {
            Some(fee) => fee,
            None => {
                return Err(ErrorCode::FixedPointConversion);
            },
        };

        if liquidity_delta != 0 {
            self.liquidity = liquidity_next;
        }
        self.fee_growth_inside_0_last_x32 = fee_growth_inside_0_x32;
        self.fee_growth_inside_1_last_x32 = fee_growth_inside_1_x32;
        if tokens_owed_0 > 0 || tokens_owed_1 > 0 {
            // The totals wrap by design: the owner is expected to withdraw
            // long before they reach `u64::MAX`.
            self.tokens_owed_0 = self.tokens_owed_0.wrapping_add(tokens_owed_0);
            self.tokens_owed_1 = self.tokens_owed_1.wrapping_add(tokens_owed_1);
        }
        Ok(())
    }
}

/// `anchor_lang::prelude::Pubkey`, the 32-byte address of an account. Nothing
/// is claimed of it: the events below carry addresses through and nothing here
/// looks inside one.
#[verifier::external_type_specification]
#[verifier::external_body]
pub struct ExPubkey(Pubkey);

/// Emitted when liquidity is minted for a position.
#[derive(Clone, Copy, Debug, PartialEq, Eq)]
pub struct MintEvent {
    /// The pool for which liquidity was minted.
    pub pool_state: Pubkey,
    /// The address that minted the liquidity.
    pub sender: Pubkey,
    /// The owner of the position, who receives the minted liquidity.
    pub owner: Pubkey,
    /// The lower tick of the position.
    pub tick_lower: i32,
    /// The upper tick of the position.
    pub tick_upper: i32,
    /// The amount of liquidity minted to the range.
    pub amount: u64,
    /// How much of token 0 the minted liquidity required.
    pub amount_0: u64,
    /// How much of token 1 the minted liquidity required.
    pub amount_1: u64,
}

/// Emitted when liquidity is removed from a position. The fees that the
/// position has earned stay owed until they are collected.
#[derive(Clone, Copy, Debug, PartialEq, Eq)]
pub struct BurnEvent {
    /// The pool from which liquidity was removed.
    pub pool_state: Pubkey,
    /// The owner of the position.
    pub owner: Pubkey,
    /// The lower tick of the position.
    pub tick_lower: i32,
    /// The upper tick of the position.
    pub tick_upper: i32,
    /// The amount of liquidity removed.
    pub amount: u64,
    /// The amount of token 0 withdrawn.
    pub amount_0: u64,
    /// The amount of token 1 withdrawn.
    pub amount_1: u64,
}

/// Emitted when the owner of a position collects fees. Both amounts may be
/// zero, where the owner chose to collect nothing.
#[derive(Clone, Copy, Debug, PartialEq, Eq)]
pub struct CollectEvent {
    /// The pool from which fees are collected.
    pub pool_state: Pubkey,
    /// The owner of the position.
    pub owner: Pubkey,
    /// The lower tick of the position.
    pub tick_lower: i32,
    /// The upper tick of the position.
    pub tick_upper: i32,
    /// The amount of token 0 fees collected.
    pub amount_0: u64,
    /// The amount of token 1 fees collected.
    pub amount_1: u64,
}

} // verus!
