//! How many tokens are still locked at a given block timestamp.
//!
//! Two independent locks hold tokens back: the lockup, which matures some
//! time after transfers are enabled and may then release linearly, and
//! vesting. A token is locked while either lock still holds it.
use crate::contract::{
    LockupContract, LockupInformation, Timestamp, TransfersInformation, VestingInformation,
    VestingSchedule,
};
use crate::wide::{mul_div_floor, scaled};
use vstd::prelude::*;

verus! {

/// `a + b`, clamped to `u64::MAX`.
pub open spec fn saturating_add_u64(a: int, b: int) -> int {
    if a + b > u64::MAX {
        u64::MAX as int
    } else {
        a + b
    }
}

/// `a - b`, clamped at zero.
pub open spec fn saturating_sub(a: int, b: int) -> int {
    if a >= b {
        a - b
    } else {
        0
    }
}

/// The larger of two integers.
pub open spec fn max_int(a: int, b: int) -> int {
    if a >= b {
        a
    } else {
        b
    }
}

impl VestingSchedule {
    /// The part of `amount` that this schedule leaves unvested at `t`: all of
    /// it before the cliff, none from the end on, and in between the share
    /// of the period `start..end` that is still to come (rounded down).
    pub open spec fn unvested_of(self, amount: int, t: int) -> int {
        if t < self.cliff_timestamp {
            amount
        } else if t >= self.end_timestamp {
            0
        } else {
            scaled(amount, self.end_timestamp - t, self.end_timestamp - self.start_timestamp)
        }
    }
}

impl LockupInformation {
    /// The moment the lockup starts to release, once transfers were enabled
    /// at `transfers_timestamp`: the later of the matured lockup and the
    /// absolute lockup timestamp.
    pub open spec fn release_start(self, transfers_timestamp: int) -> int {
        max_int(
            saturating_add_u64(transfers_timestamp, self.lockup_duration as int),
            match self.lockup_timestamp {
                Some(ts) => ts as int,
                None => 0,
            },
        )
    }

    /// What the linear release still holds back at `t >= start`, when the
    /// release began at `start`.
    pub open spec fn unreleased_at(self, start: int, t: int) -> int {
        match self.release_duration {
            None => 0,
            Some(d) => {
                let end = saturating_add_u64(start, d as int);
                if t >= end {
                    0
                } else {
                    scaled(self.lockup_amount as int, end - t, d as int)
                }
            },
        }
    }

    /// Everything still held: the lockup amount less what was withdrawn.
    pub open spec fn held_amount(self) -> int {
        saturating_sub(self.lockup_amount as int, self.termination_withdrawn_tokens as int)
    }
}

impl LockupContract {
    /// What `get_unvested_amount` returns for `schedule` at `t`.
    pub open spec fn unvested_amount_at(self, schedule: VestingSchedule, t: int) -> int {
        match self.vesting_information {
            VestingInformation::Terminating(ti) => ti.unvested_amount as int,
            VestingInformation::NoVesting => 0,
            _ => schedule.unvested_of(self.lockup_information.lockup_amount as int, t),
        }
    }

    /// What vesting alone holds back at `t`. A private schedule holds back
    /// nothing beyond the lockup.
    pub open spec fn vesting_locked_at(self, t: int) -> int {
        match self.vesting_information {
            VestingInformation::VestingSchedule(vs) => vs.unvested_of(
                self.lockup_information.lockup_amount as int,
                t,
            ),
            VestingInformation::Terminating(ti) => ti.unvested_amount as int,
            _ => 0,
        }
    }

    /// The tokens locked at `t`.
    pub open spec fn locked_amount_at(self, t: int) -> int {
        let info = self.lockup_information;
        match info.transfers_information {
            TransfersInformation::TransfersEnabled { transfers_timestamp } => {
                let start = info.release_start(transfers_timestamp as int);
                if t < start {
                    info.held_amount()
                } else {
                    max_int(
                        saturating_sub(
                            info.unreleased_at(start, t),
                            info.termination_withdrawn_tokens as int,
                        ),
                        self.vesting_locked_at(t),
                    )
                }
            },
            TransfersInformation::TransfersDisabled { .. } => info.held_amount(),
        }
    }

    /// The amount that vesting holds back at `block_timestamp`, reading the
    /// schedule from `vesting_schedule` (the stored one may be private). A
    /// termination overrides the schedule; without vesting nothing is held.
    pub fn get_unvested_amount(&self, vesting_schedule: VestingSchedule, block_timestamp: u64) -> (r:
        u128)
        requires
            match self.vesting_information {
                VestingInformation::Terminating(_) | VestingInformation::NoVesting => true,
                _ => vesting_schedule.is_valid(),
            },
        ensures
            r == self.unvested_amount_at(vesting_schedule, block_timestamp as int),
    {
        let lockup_amount = self.lockup_information.lockup_amount;
        match &self.vesting_information {
            VestingInformation::Terminating(termination_information) => {
                termination_information.unvested_amount
            },
            VestingInformation::NoVesting => 0,
            _ => {
                if block_timestamp < vesting_schedule.cliff_timestamp {
                    // Nothing vests before the cliff.
                    lockup_amount
                } else if block_timestamp >= vesting_schedule.end_timestamp {
                    // Everything has vested.
                    0
                } else {
                    let time_left = vesting_schedule.end_timestamp - block_timestamp;
                    let total_time = vesting_schedule.end_timestamp
                        - vesting_schedule.start_timestamp;
                    mul_div_floor(lockup_amount, time_left, total_time)
                }
            },
        }
    }

    /// The amount locked at `timestamp`, by the lockup's release or by
    /// vesting, whichever holds back more.
    pub fn get_locked_amount(&self, timestamp: Timestamp) -> (r: u128)
        requires
            self.wf(),
        ensures
            r == self.locked_amount_at(timestamp as int),
    {
        let info = &self.lockup_information;
        let lockup_amount = info.lockup_amount;
        if let TransfersInformation::TransfersEnabled { transfers_timestamp } =
            &info.transfers_information {
            let matured = transfers_timestamp.saturating_add(info.lockup_duration);
            let absolute = match info.lockup_timestamp {
                Some(ts) => ts,
                None => 0,
            };
            let lockup_timestamp = if matured >= absolute {
                matured
            } else {
                absolute
            };
            let block_timestamp = timestamp;
            if lockup_timestamp <= block_timestamp {
                let unreleased_amount: u128 = match info.release_duration {
                    Some(release_duration) => {
                        let end_timestamp = lockup_timestamp.saturating_add(release_duration);
                        if block_timestamp >= end_timestamp {
                            // Everything is released.
                            0
                        } else {
                            mul_div_floor(
                                lockup_amount,
                                end_timestamp - block_timestamp,
                                release_duration,
                            )
                        }
                    },
                    None => 0,
                };
                let unvested_amount: u128 = match &self.vesting_information {
                    VestingInformation::VestingSchedule(vs) => self.get_unvested_amount(
                        *vs,
                        block_timestamp,
                    ),
                    VestingInformation::Terminating(terminating) => terminating.unvested_amount,
                    // A private schedule is taken to have started before the lockup.
                    _ => 0,
                };
                let released_part = unreleased_amount.saturating_sub(
                    info.termination_withdrawn_tokens,
                );
                return if released_part >= unvested_amount {
                    released_part
                } else {
                    unvested_amount
                };
            }
        }
        // The whole balance is locked before the lockup starts to release.
        lockup_amount.saturating_sub(info.termination_withdrawn_tokens)
    }
}

} // verus!
