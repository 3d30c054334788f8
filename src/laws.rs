//! Properties of the locked amount that hold across timestamps and states.
use crate::accrual::saturating_sub;
use crate::contract::{
    LockupContract, LockupInformation, TransfersInformation, VestingInformation, VestingSchedule,
};
use crate::wide::{lemma_scaled_bounds, lemma_scaled_monotonic};
use vstd::prelude::*;

verus! {

impl LockupContract {
    /// A termination never freezes more than the lockup amount.
    pub open spec fn termination_within_lockup(self) -> bool {
        match self.vesting_information {
            VestingInformation::Terminating(ti) => ti.unvested_amount
                <= self.lockup_information.lockup_amount,
            _ => true,
        }
    }

    /// When the lockup starts to release after time zero, vesting alone
    /// holds back no more than the balance held just before. Without this,
    /// withdrawn tokens would count as locked again by vesting once the
    /// release starts.
    pub open spec fn vesting_within_held_at_release(self) -> bool {
        let info = self.lockup_information;
        match info.transfers_information {
            TransfersInformation::TransfersEnabled { transfers_timestamp } => {
                let start = info.release_start(transfers_timestamp as int);
                start > 0 ==> self.vesting_locked_at(start) <= info.held_amount()
            },
            TransfersInformation::TransfersDisabled { .. } => true,
        }
    }
}

/// A valid schedule leaves unvested at most `amount`, and less as time goes on.
pub proof fn lemma_schedule_unvested_non_increasing(
    vs: VestingSchedule,
    amount: int,
    t1: int,
    t2: int,
)
    requires
        vs.is_valid(),
        0 <= amount,
        t1 <= t2,
    ensures
        0 <= vs.unvested_of(amount, t2) <= vs.unvested_of(amount, t1) <= amount,
{
    let total = vs.end_timestamp - vs.start_timestamp;
    if vs.cliff_timestamp <= t1 && t1 < vs.end_timestamp {
        lemma_scaled_bounds(amount, vs.end_timestamp - t1, total);
        if t2 < vs.end_timestamp {
            lemma_scaled_monotonic(amount, vs.end_timestamp - t2, vs.end_timestamp - t1, total);
        }
    }
    if vs.cliff_timestamp <= t2 && t2 < vs.end_timestamp {
        lemma_scaled_bounds(amount, vs.end_timestamp - t2, total);
    }
}

/// The linear release holds back at most the lockup amount, and less as
/// time goes on.
pub proof fn lemma_unreleased_non_increasing(info: LockupInformation, start: int, t1: int, t2: int)
    requires
        0 <= start <= t1 <= t2,
    ensures
        0 <= info.unreleased_at(start, t2) <= info.unreleased_at(start, t1)
            <= info.lockup_amount,
{
    if let Some(d) = info.release_duration {
        let end = crate::accrual::saturating_add_u64(start, d as int);
        if t1 < end {
            lemma_scaled_bounds(info.lockup_amount as int, end - t1, d as int);
            if t2 < end {
                lemma_scaled_bounds(info.lockup_amount as int, end - t2, d as int);
                lemma_scaled_monotonic(info.lockup_amount as int, end - t2, end - t1, d as int);
            }
        }
    }
}

/// What vesting holds back does not grow with time.
pub proof fn lemma_vesting_locked_non_increasing(c: LockupContract, t1: int, t2: int)
    requires
        c.wf(),
        t1 <= t2,
    ensures
        0 <= c.vesting_locked_at(t2) <= c.vesting_locked_at(t1),
{
    if let VestingInformation::VestingSchedule(vs) = c.vesting_information {
        lemma_schedule_unvested_non_increasing(
            vs,
            c.lockup_information.lockup_amount as int,
            t1,
            t2,
        );
    }
}

/// While transfers are disabled, the whole balance less the withdrawn tokens
/// is locked, whatever the timestamp.
pub proof fn lemma_locked_while_transfers_disabled(c: LockupContract, t: int)
    requires
        c.lockup_information.transfers_information is TransfersDisabled,
    ensures
        c.locked_amount_at(t) == saturating_sub(
            c.lockup_information.lockup_amount as int,
            c.lockup_information.termination_withdrawn_tokens as int,
        ),
{
}

/// Tokens never lock again: the locked amount does not grow as the block
/// timestamp advances.
pub proof fn lemma_locked_amount_non_increasing(c: LockupContract, t1: int, t2: int)
    requires
        c.wf(),
        c.vesting_within_held_at_release(),
        0 <= t1 <= t2,
    ensures
        c.locked_amount_at(t2) <= c.locked_amount_at(t1),
{
    let info = c.lockup_information;
    if let TransfersInformation::TransfersEnabled { transfers_timestamp } =
        info.transfers_information {
        let start = info.release_start(transfers_timestamp as int);
        lemma_vesting_locked_non_increasing(c, t1, t2);
        if start <= t1 {
            lemma_unreleased_non_increasing(info, start, t1, t2);
        } else if start <= t2 {
            lemma_unreleased_non_increasing(info, start, t2, t2);
            lemma_vesting_locked_non_increasing(c, start, t2);
        }
    }
}

/// The locked amount is never negative and never exceeds the lockup amount.
pub proof fn lemma_locked_amount_bounded(c: LockupContract, t: int)
    requires
        c.wf(),
        c.lockup_information.transfers_information is TransfersEnabled
            ==> c.termination_within_lockup(),
    ensures
        0 <= c.locked_amount_at(t) <= c.lockup_information.lockup_amount,
{
    let info = c.lockup_information;
    if let TransfersInformation::TransfersEnabled { transfers_timestamp } =
        info.transfers_information {
        let start = info.release_start(transfers_timestamp as int);
        if start <= t {
            lemma_unreleased_non_increasing(info, start, t, t);
            lemma_vesting_locked_non_increasing(c, t, t);
            if let VestingInformation::VestingSchedule(vs) = c.vesting_information {
                lemma_schedule_unvested_non_increasing(vs, info.lockup_amount as int, t, t);
            }
        }
    }
}

/// The locked amount is a function of the state and the timestamp alone:
/// equal inputs give equal results.
pub proof fn lemma_locked_amount_deterministic(
    c1: LockupContract,
    c2: LockupContract,
    t1: int,
    t2: int,
)
    requires
        c1 == c2,
        t1 == t2,
    ensures
        c1.locked_amount_at(t1) == c2.locked_amount_at(t2),
{
}

/// At the end of a schedule nothing is unvested; at its cliff everything is
/// still unvested when the cliff is the start of vesting (a later cliff has
/// already passed part of the linear period), and everything is unvested
/// at any moment before the cliff.
pub proof fn lemma_unvested_at_cliff_and_end(c: LockupContract, vs: VestingSchedule, t: int)
    requires
        vs.is_valid(),
        c.vesting_information is VestingSchedule || c.vesting_information is VestingHash,
    ensures
        t < vs.cliff_timestamp ==> c.unvested_amount_at(vs, t) == c.lockup_information.lockup_amount,
        vs.cliff_timestamp == vs.start_timestamp ==> c.unvested_amount_at(
            vs,
            vs.cliff_timestamp as int,
        ) == c.lockup_information.lockup_amount,
        t >= vs.end_timestamp ==> c.unvested_amount_at(vs, t) == 0,
        c.unvested_amount_at(vs, vs.end_timestamp as int) == 0,
{
    let amount = c.lockup_information.lockup_amount as int;
    let total = vs.end_timestamp - vs.start_timestamp;
    if vs.cliff_timestamp == vs.start_timestamp {
        vstd::arithmetic::div_mod::lemma_div_multiples_vanish(amount, total);
        assert(amount * total == total * amount) by (nonlinear_arith);
    }
}

/// A termination overrides the schedule: vesting holds back exactly the
/// frozen unvested amount, at every timestamp and for every schedule.
pub proof fn lemma_termination_overrides_schedule(c: LockupContract, vs: VestingSchedule, t: int)
    requires
        c.vesting_information is Terminating,
    ensures
        c.vesting_locked_at(t) == c.vesting_information->Terminating_0.unvested_amount,
        c.unvested_amount_at(vs, t) == c.vesting_information->Terminating_0.unvested_amount,
{
}

/// The vesting part of the locked amount is what `get_unvested_amount`
/// gives for the stored schedule; a private schedule, or none, holds back
/// nothing.
pub proof fn lemma_vesting_part_is_unvested_amount(c: LockupContract, vs: VestingSchedule, t: int)
    ensures
        c.vesting_information == VestingInformation::VestingSchedule(vs) ==> c.vesting_locked_at(t)
            == c.unvested_amount_at(vs, t),
        c.vesting_information is Terminating ==> c.vesting_locked_at(t) == c.unvested_amount_at(
            vs,
            t,
        ),
        c.vesting_information is VestingHash || c.vesting_information is NoVesting
            ==> c.vesting_locked_at(t) == 0,
{
}

} // verus!
