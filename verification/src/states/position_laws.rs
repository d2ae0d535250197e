//! What holds of a position over any number of updates.

use vstd::prelude::*;
use crate::states::position::{two_pow_64, PositionState};

verus! {

/// The arguments of one call of `PositionState::update`.
pub struct UpdateCall {
    /// Liquidity to add, to remove, or zero for a refresh.
    pub liquidity_delta: i64,
    /// Fee growth inside the range in token 0, in Q32.
    pub fee_growth_inside_0_x32: u64,
    /// Fee growth inside the range in token 1, in Q32.
    pub fee_growth_inside_1_x32: u64,
}

impl PositionState {
    /// Whether the position accepts the call.
    pub open spec fn accepts(self, call: UpdateCall) -> bool {
        self.update_error(
            call.liquidity_delta,
            call.fee_growth_inside_0_x32,
            call.fee_growth_inside_1_x32,
        ) is None
    }

    /// The position after one call: updated where the call is accepted,
    /// unchanged where it is refused.
    pub open spec fn after_call(self, call: UpdateCall) -> PositionState {
        if self.accepts(call) {
            self.updated(
                call.liquidity_delta,
                call.fee_growth_inside_0_x32,
                call.fee_growth_inside_1_x32,
            )
        } else {
            self
        }
    }

    /// The position after the calls have been made on it one after another.
    pub open spec fn after_calls(self, calls: Seq<UpdateCall>) -> PositionState
        decreases calls.len(),
    {
        if calls.len() == 0 {
            self
        } else {
            self.after_calls(calls.drop_last()).after_call(calls.last())
        }
    }

    /// The sum of the liquidity deltas of those calls that were accepted.
    pub open spec fn accepted_delta_sum(self, calls: Seq<UpdateCall>) -> int
        decreases calls.len(),
    {
        if calls.len() == 0 {
            0
        } else {
            let before = self.after_calls(calls.drop_last());
            self.accepted_delta_sum(calls.drop_last()) + if before.accepts(calls.last()) {
                calls.last().liquidity_delta as int
            } else {
                0
            }
        }
    }

    /// The sum, without wrapping, of the fees in token 0 that the accepted
    /// calls have credited.
    pub open spec fn credited_fee_sum_0(self, calls: Seq<UpdateCall>) -> int
        decreases calls.len(),
    {
        if calls.len() == 0 {
            0
        } else {
            let before = self.after_calls(calls.drop_last());
            self.credited_fee_sum_0(calls.drop_last()) + if before.accepts(calls.last()) {
                before.fee_due_0(calls.last().fee_growth_inside_0_x32)
            } else {
                0
            }
        }
    }

    /// The sum, without wrapping, of the fees in token 1 that the accepted
    /// calls have credited.
    pub open spec fn credited_fee_sum_1(self, calls: Seq<UpdateCall>) -> int
        decreases calls.len(),
    {
        if calls.len() == 0 {
            0
        } else {
            let before = self.after_calls(calls.drop_last());
            self.credited_fee_sum_1(calls.drop_last()) + if before.accepts(calls.last()) {
                before.fee_due_1(calls.last().fee_growth_inside_1_x32)
            } else {
                0
            }
        }
    }

    /// After any sequence of calls, the stored liquidity is the liquidity at
    /// the start plus the deltas of the calls that were accepted, and that sum
    /// is never negative. For a position that starts empty it is the sum of
    /// the accepted deltas alone.
    pub proof fn law_liquidity_is_sum_of_accepted_deltas(self, calls: Seq<UpdateCall>)
        ensures
            self.after_calls(calls).liquidity == self.liquidity + self.accepted_delta_sum(calls),
            self.liquidity + self.accepted_delta_sum(calls) >= 0,
            self.liquidity == 0 ==> self.after_calls(calls).liquidity == self.accepted_delta_sum(
                calls,
            ),
        decreases calls.len(),
    {
        if calls.len() > 0 {
            self.law_liquidity_is_sum_of_accepted_deltas(calls.drop_last());
        }
    }

    /// After any sequence of calls, each owed total is the total at the start
    /// plus all the fees credited since, reduced modulo `2^64`: accrual wraps,
    /// it neither saturates nor loses a fee.
    pub proof fn law_owed_totals_wrap(self, calls: Seq<UpdateCall>)
        ensures
            self.after_calls(calls).tokens_owed_0 == (self.tokens_owed_0
                + self.credited_fee_sum_0(calls)) % two_pow_64(),
            self.after_calls(calls).tokens_owed_1 == (self.tokens_owed_1
                + self.credited_fee_sum_1(calls)) % two_pow_64(),
        decreases calls.len(),
    {
        if calls.len() > 0 {
            self.law_owed_totals_wrap(calls.drop_last());
        }
    }

    /// Whether an update is accepted, and with which error it is refused, does
    /// not depend on the owed totals: no amount of accrued fees makes an
    /// update fail.
    pub proof fn law_owed_totals_never_refuse(
        self,
        other: PositionState,
        liquidity_delta: i64,
        fee_growth_inside_0_x32: u64,
        fee_growth_inside_1_x32: u64,
    )
        requires
            other.liquidity == self.liquidity,
            other.fee_growth_inside_0_last_x32 == self.fee_growth_inside_0_last_x32,
            other.fee_growth_inside_1_last_x32 == self.fee_growth_inside_1_last_x32,
        ensures
            other.update_error(liquidity_delta, fee_growth_inside_0_x32, fee_growth_inside_1_x32)
                == self.update_error(
                liquidity_delta,
                fee_growth_inside_0_x32,
                fee_growth_inside_1_x32,
            ),
    {
    }

    /// A refresh at the accumulator values that the position already holds as
    /// its snapshots earns nothing: a position with liquidity accepts it and
    /// is left exactly as it was.
    pub proof fn law_refresh_at_snapshot_changes_nothing(self)
        requires
            self.liquidity > 0,
        ensures
            self.fee_due_0(self.fee_growth_inside_0_last_x32) == 0,
            self.fee_due_1(self.fee_growth_inside_1_last_x32) == 0,
            self.update_error(
                0,
                self.fee_growth_inside_0_last_x32,
                self.fee_growth_inside_1_last_x32,
            ) is None,
            self.updated(0, self.fee_growth_inside_0_last_x32, self.fee_growth_inside_1_last_x32)
                == self,
    {
    }

    /// Refreshing twice in a row at the same accumulator values credits the
    /// fees once: where the first refresh is accepted, so is the second, and
    /// it leaves the position as the first left it.
    pub proof fn law_refresh_is_idempotent(
        self,
        fee_growth_inside_0_x32: u64,
        fee_growth_inside_1_x32: u64,
    )
        requires
            self.update_error(0, fee_growth_inside_0_x32, fee_growth_inside_1_x32) is None,
        ensures
            ({
                let once = self.updated(0, fee_growth_inside_0_x32, fee_growth_inside_1_x32);
                &&& once.update_error(0, fee_growth_inside_0_x32, fee_growth_inside_1_x32) is None
                &&& once.updated(0, fee_growth_inside_0_x32, fee_growth_inside_1_x32) == once
                &&& once.tokens_owed_0 == once.updated(
                    0,
                    fee_growth_inside_0_x32,
                    fee_growth_inside_1_x32,
                ).tokens_owed_0
                &&& once.tokens_owed_1 == once.updated(
                    0,
                    fee_growth_inside_0_x32,
                    fee_growth_inside_1_x32,
                ).tokens_owed_1
            }),
    {
        let once = self.updated(0, fee_growth_inside_0_x32, fee_growth_inside_1_x32);
        once.law_refresh_at_snapshot_changes_nothing();
    }
}

} // verus!
