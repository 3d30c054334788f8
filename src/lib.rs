//! Lockup and vesting accounting for NEAR lockup accounts.
//!
//! The library models the state kept by a lockup account and computes, for a
//! given block timestamp, how many tokens are still locked by the lockup's
//! release schedule and by the vesting schedule.
pub mod accrual;
pub mod contract;
pub mod laws;
pub mod rpc;
pub mod wide;

pub use contract::{
    Balance, Duration, LockupContract, LockupInformation, StakingInformation, TerminationInformation,
    TerminationStatus, Timestamp, TransactionStatus, TransfersInformation, VestingInformation,
    VestingSchedule, VestingScheduleError, VestingScheduleOrHash, VestingScheduleWithSalt,
};
pub use rpc::{Block, BlockHeader, Response, ResponseBlock, ResponseResult, ResponseValue, ValueError};
