//! The state kept by a lockup account: the lockup itself, the vesting
//! schedule or its termination, and the staking bookkeeping around them.
use vstd::bytes::{spec_u32_to_le_bytes, spec_u64_to_le_bytes, u32_to_le_bytes, u64_to_le_bytes};
use vstd::prelude::*;

verus! {

/// Duration in nanoseconds.
pub type Duration = u64;

/// Timestamp in nanoseconds.
pub type Timestamp = u64;

/// Token amount in yocto-NEAR.
pub type Balance = u128;

/// Whether transfers are enabled, and from when.
#[derive(Clone, Debug, PartialEq, Eq)]
pub enum TransfersInformation {
    /// The timestamp when transfers were enabled. The lockup period starts here.
    TransfersEnabled { transfers_timestamp: Timestamp },
    /// Transfers are still disabled; the account of the poll that will enable them.
    TransfersDisabled { transfer_poll_account_id: String },
}

/// Whether a transaction with the staking pool or a withdrawal is in flight.
#[derive(Clone, Copy, Debug, PartialEq, Eq, Structural)]
pub enum TransactionStatus {
    /// There are no transactions in progress.
    Idle,
    /// There is a transaction in progress.
    Busy,
}

/// Current stake and delegation.
#[derive(Clone, Debug, PartialEq, Eq)]
pub struct StakingInformation {
    /// The account of the staking pool contract.
    pub staking_pool_account_id: String,
    /// Whether a transaction with the pool is in progress.
    pub status: TransactionStatus,
    /// The amount deposited from this account to the staking pool.
    pub deposit_amount: Balance,
}

/// Why a vesting schedule was rejected.
#[derive(Clone, Copy, Debug, PartialEq, Eq, Structural)]
pub enum VestingScheduleError {
    /// The cliff lies before the start of vesting.
    CliffBeforeStart,
    /// The cliff lies after the end of vesting.
    CliffAfterEnd,
    /// The vesting period is empty: its end is not after its start.
    EmptyPeriod,
}

/// A vesting schedule: nothing vests before the cliff, and from the cliff on
/// the vested part follows the straight line from `start` to `end`.
#[derive(Clone, Copy, Debug, PartialEq, Eq, Structural)]
pub struct VestingSchedule {
    /// When vesting starts, e.g. the start date of employment.
    pub start_timestamp: Timestamp,
    /// When the first part of the tokens becomes vested.
    pub cliff_timestamp: Timestamp,
    /// When vesting ends and everything is vested.
    pub end_timestamp: Timestamp,
}

impl VestingSchedule {
    /// `start <= cliff <= end` and `start < end`.
    pub open spec fn is_valid(self) -> bool {
        &&& self.start_timestamp <= self.cliff_timestamp
        &&& self.cliff_timestamp <= self.end_timestamp
        &&& self.start_timestamp < self.end_timestamp
    }

    /// The first rule the schedule breaks, checked in the order
    /// cliff-after-start, cliff-before-end, positive length.
    pub open spec fn first_violation(self) -> Option<VestingScheduleError> {
        if self.start_timestamp > self.cliff_timestamp {
            Some(VestingScheduleError::CliffBeforeStart)
        } else if self.cliff_timestamp > self.end_timestamp {
            Some(VestingScheduleError::CliffAfterEnd)
        } else if self.start_timestamp >= self.end_timestamp {
            Some(VestingScheduleError::EmptyPeriod)
        } else {
            None
        }
    }

    /// Checks the schedule's invariant.
    pub fn assert_valid(&self) -> (r: Result<(), VestingScheduleError>)
        ensures
            r is Ok <==> self.is_valid(),
            r is Err ==> Some(r->Err_0) == self.first_violation(),
            self.first_violation() is None <==> self.is_valid(),
    {
        if self.start_timestamp > self.cliff_timestamp {
            Err(VestingScheduleError::CliffBeforeStart)
        } else if self.cliff_timestamp > self.end_timestamp {
            Err(VestingScheduleError::CliffAfterEnd)
        } else if self.start_timestamp >= self.end_timestamp {
            Err(VestingScheduleError::EmptyPeriod)
        } else {
            Ok(())
        }
    }

    /// Builds a schedule, or says which rule it breaks.
    pub fn new(start_timestamp: Timestamp, cliff_timestamp: Timestamp, end_timestamp: Timestamp) -> (r:
        Result<VestingSchedule, VestingScheduleError>)
        ensures
            ({
                let s = VestingSchedule { start_timestamp, cliff_timestamp, end_timestamp };
                &&& r is Ok <==> s.is_valid()
                &&& r is Ok ==> r->Ok_0 == s
                &&& r is Err ==> Some(r->Err_0) == s.first_violation()
            }),
    {
        let s = VestingSchedule { start_timestamp, cliff_timestamp, end_timestamp };
        match s.assert_valid() {
            Ok(()) => Ok(s),
            Err(e) => Err(e),
        }
    }
}

/// How a vesting schedule is given when an account is set up.
#[derive(Clone, Debug, PartialEq, Eq)]
pub enum VestingScheduleOrHash {
    /// The schedule is private; this is the hash of the schedule and a salt.
    VestingHash(Vec<u8>),
    /// The schedule is public.
    VestingSchedule(VestingSchedule),
}

/// The stages of withdrawing the unvested tokens after a termination.
#[derive(Clone, Copy, Debug, PartialEq, Eq, Structural)]
pub enum TerminationStatus {
    /// Initial stage of the termination in case there is a deficit on the account.
    VestingTerminatedWithDeficit,
    /// A transaction to unstake everything is in progress.
    UnstakingInProgress,
    /// Everything has been unstaked from the staking pool.
    EverythingUnstaked,
    /// A transaction to withdraw everything from the staking pool is in progress.
    WithdrawingFromStakingPoolInProgress,
    /// Everything is withdrawn from the staking pool; ready to withdraw out of the account.
    ReadyToWithdraw,
    /// A transaction to withdraw tokens from the account is in progress.
    WithdrawingFromAccountInProgress,
}

/// An early termination of vesting.
#[derive(Clone, Copy, Debug, PartialEq, Eq, Structural)]
pub struct TerminationInformation {
    /// The tokens that stay unvested and go back to the foundation.
    pub unvested_amount: Balance,
    /// The progress of their withdrawal.
    pub status: TerminationStatus,
}

/// What the account knows of vesting.
#[derive(Clone, Debug, PartialEq, Eq)]
pub enum VestingInformation {
    /// No vesting.
    NoVesting,
    /// The schedule is private: only its hash is known. It is taken to have
    /// started before the lockup and to restrict nothing beyond it.
    VestingHash(Vec<u8>),
    /// A public vesting schedule.
    VestingSchedule(VestingSchedule),
    /// Vesting was terminated early; the unvested amount is frozen.
    Terminating(TerminationInformation),
}

impl VestingInformation {
    /// A public schedule, if any, satisfies its invariant.
    pub open spec fn is_valid(self) -> bool {
        match self {
            VestingInformation::VestingSchedule(vs) => vs.is_valid(),
            _ => true,
        }
    }
}

/// A vesting schedule together with the salt that hides it.
#[derive(Clone, Debug, PartialEq, Eq)]
pub struct VestingScheduleWithSalt {
    /// The vesting schedule.
    pub vesting_schedule: VestingSchedule,
    /// Salt that makes the hash unique.
    pub salt: Vec<u8>,
}

impl VestingScheduleWithSalt {
    /// The Borsh encoding of the salted schedule: the three timestamps as
    /// little-endian `u64`, then the salt as a little-endian `u32` length
    /// followed by its bytes.
    pub open spec fn encoding(self) -> Seq<u8> {
        spec_u64_to_le_bytes(self.vesting_schedule.start_timestamp) + spec_u64_to_le_bytes(
            self.vesting_schedule.cliff_timestamp,
        ) + spec_u64_to_le_bytes(self.vesting_schedule.end_timestamp) + spec_u32_to_le_bytes(
            self.salt@.len() as u32,
        ) + self.salt@
    }

    /// The bytes whose SHA-256 digest is the private schedule's hash: the
    /// Borsh encoding of the salted schedule. A salt longer than `u32::MAX`
    /// has no encoding.
    pub fn hash_preimage(&self) -> (r: Vec<u8>)
        requires
            self.salt@.len() <= u32::MAX,
        ensures
            r@ == self.encoding(),
    {
        let mut out = u64_to_le_bytes(self.vesting_schedule.start_timestamp);
        let mut cliff = u64_to_le_bytes(self.vesting_schedule.cliff_timestamp);
        out.append(&mut cliff);
        let mut end = u64_to_le_bytes(self.vesting_schedule.end_timestamp);
        out.append(&mut end);
        let mut len = u32_to_le_bytes(self.salt.len() as u32);
        out.append(&mut len);
        let n = self.salt.len();
        let ghost prefix = out@;
        let mut i: usize = 0;
        while i < n
            invariant
                n == self.salt@.len(),
                i <= n,
                out@ == prefix + self.salt@.subrange(0, i as int),
            decreases n - i,
        {
            out.push(self.salt[i]);
            i = i + 1;
            assert(self.salt@.subrange(0, i as int) =~= self.salt@.subrange(0, i - 1 as int).push(
                self.salt@[i - 1],
            ));
        }
        assert(self.salt@.subrange(0, n as int) =~= self.salt@);
        out
    }
}

/// The lockup schedule and the amount it holds.
#[derive(Clone, Debug, PartialEq, Eq)]
pub struct LockupInformation {
    /// The amount locked for this account.
    pub lockup_amount: Balance,
    /// The amount withdrawn by the foundation after an early termination of
    /// vesting. It is kept apart from `lockup_amount` so that the linear
    /// release is not affected.
    pub termination_withdrawn_tokens: Balance,
    /// How long after transfers are enabled the lockup matures.
    pub lockup_duration: Duration,
    /// If present, the tokens are released linearly over this duration once
    /// the lockup matures.
    pub release_duration: Option<Duration>,
    /// If present, nothing is released before this absolute timestamp.
    pub lockup_timestamp: Option<Timestamp>,
    /// When the lockup period starts.
    pub transfers_information: TransfersInformation,
}

/// The whole state of a lockup account.
#[derive(Clone, Debug, PartialEq, Eq)]
pub struct LockupContract {
    /// The account of the owner.
    pub owner_account_id: String,
    /// The lockup schedule and the amount.
    pub lockup_information: LockupInformation,
    /// Vesting schedule or termination.
    pub vesting_information: VestingInformation,
    /// The account of the staking pool whitelist contract.
    pub staking_pool_whitelist_account_id: String,
    /// Staking and delegation, when a staking pool is selected.
    pub staking_information: Option<StakingInformation>,
    /// The account that may terminate vesting.
    pub foundation_account_id: Option<String>,
}

impl LockupContract {
    /// The state's invariant: a public vesting schedule is well formed.
    pub open spec fn wf(self) -> bool {
        self.vesting_information.is_valid()
    }

    /// The state with `transfers_timestamp` standing in for the moment
    /// transfers were enabled, where the state does not record one yet. A
    /// state whose transfers are enabled is returned as it is.
    pub fn with_transfers_fallback(self, transfers_timestamp: Timestamp) -> (r: LockupContract)
        ensures
            self.lockup_information.transfers_information is TransfersEnabled ==> r == self,
            self.lockup_information.transfers_information is TransfersDisabled ==> r == (
            LockupContract {
                lockup_information: LockupInformation {
                    transfers_information: TransfersInformation::TransfersEnabled {
                        transfers_timestamp,
                    },
                    ..self.lockup_information
                },
                ..self
            }),
    {
        match self.lockup_information.transfers_information {
            TransfersInformation::TransfersEnabled { .. } => self,
            TransfersInformation::TransfersDisabled { .. } => {
                let mut state = self;
                state.lockup_information.transfers_information =
                    TransfersInformation::TransfersEnabled { transfers_timestamp };
                state
            },
        }
    }
}

} // verus!
