use near_lockup::wide::mul_div_floor;
use near_lockup::{
    LockupContract, LockupInformation, TerminationInformation, TerminationStatus,
    TransfersInformation, VestingInformation, VestingSchedule, VestingScheduleError,
};

fn contract(info: LockupInformation, vesting: VestingInformation) -> LockupContract {
    LockupContract {
        owner_account_id: "owner.near".to_string(),
        lockup_information: info,
        vesting_information: vesting,
        staking_pool_whitelist_account_id: "whitelist.near".to_string(),
        staking_information: None,
        foundation_account_id: None,
    }
}

fn lockup(
    amount: u128,
    withdrawn: u128,
    duration: u64,
    release: Option<u64>,
    transfers: Option<u64>,
) -> LockupInformation {
    LockupInformation {
        lockup_amount: amount,
        termination_withdrawn_tokens: withdrawn,
        lockup_duration: duration,
        release_duration: release,
        lockup_timestamp: None,
        transfers_information: match transfers {
            Some(ts) => TransfersInformation::TransfersEnabled { transfers_timestamp: ts },
            None => TransfersInformation::TransfersDisabled {
                transfer_poll_account_id: "poll.near".to_string(),
            },
        },
    }
}

fn schedule(start: u64, cliff: u64, end: u64) -> VestingSchedule {
    VestingSchedule { start_timestamp: start, cliff_timestamp: cliff, end_timestamp: end }
}

fn terminating(amount: u128) -> VestingInformation {
    VestingInformation::Terminating(TerminationInformation {
        unvested_amount: amount,
        status: TerminationStatus::ReadyToWithdraw,
    })
}

#[test]
fn lockup_not_yet_released() {
    let c = contract(lockup(1_000_000, 0, 100, None, Some(0)), VestingInformation::NoVesting);
    assert_eq!(c.get_locked_amount(50), 1_000_000);
}

#[test]
fn lockup_past_duration_without_release() {
    let c = contract(lockup(1_000_000, 0, 100, None, Some(0)), VestingInformation::NoVesting);
    assert_eq!(c.get_locked_amount(150), 0);
    assert_eq!(c.get_locked_amount(100), 0);
    assert_eq!(c.get_locked_amount(99), 1_000_000);
}

#[test]
fn linear_release_halfway() {
    let c = contract(lockup(1_000_000, 0, 0, Some(1000), Some(0)), VestingInformation::NoVesting);
    assert_eq!(c.get_locked_amount(500), 500_000);
    assert_eq!(c.get_locked_amount(0), 1_000_000);
    assert_eq!(c.get_locked_amount(999), 1_000);
    assert_eq!(c.get_locked_amount(1000), 0);
}

#[test]
fn termination_overrides_schedule() {
    let c = contract(lockup(1_000_000, 0, 0, None, Some(0)), terminating(300_000));
    for t in [0u64, 1, 500, 1_000_000, u64::MAX] {
        assert_eq!(c.get_unvested_amount(schedule(0, 10, 20), t), 300_000);
        assert_eq!(c.get_locked_amount(t), 300_000);
    }
}

#[test]
fn termination_against_release() {
    let c = contract(lockup(1_000_000, 0, 0, Some(1000), Some(0)), terminating(300_000));
    assert_eq!(c.get_locked_amount(500), 500_000);
    assert_eq!(c.get_locked_amount(900), 300_000);
}

#[test]
fn transfers_disabled_keeps_everything_locked() {
    let c = contract(lockup(1_000, 200, 0, Some(10), None), VestingInformation::NoVesting);
    for t in [0u64, 5, 1_000, u64::MAX] {
        assert_eq!(c.get_locked_amount(t), 800);
    }
}

#[test]
fn withdrawn_beyond_lockup_saturates() {
    let c = contract(lockup(100, 250, 0, None, None), VestingInformation::NoVesting);
    assert_eq!(c.get_locked_amount(7), 0);
    let c = contract(lockup(100, 250, 50, None, Some(0)), VestingInformation::NoVesting);
    assert_eq!(c.get_locked_amount(10), 0);
}

#[test]
fn withdrawn_tokens_reduce_release_only() {
    let c = contract(
        lockup(1_000, 400, 0, Some(100), Some(0)),
        VestingInformation::VestingSchedule(schedule(0, 0, 1_000)),
    );
    // release holds 500, less 400 withdrawn; vesting holds 950
    assert_eq!(c.get_locked_amount(50), 950);
}

#[test]
fn lockup_timestamp_delays_release() {
    let mut info = lockup(1_000, 0, 10, None, Some(0));
    info.lockup_timestamp = Some(500);
    let c = contract(info, VestingInformation::NoVesting);
    assert_eq!(c.get_locked_amount(100), 1_000);
    assert_eq!(c.get_locked_amount(499), 1_000);
    assert_eq!(c.get_locked_amount(500), 0);
}

#[test]
fn lockup_start_saturates() {
    let c = contract(lockup(1_000, 0, u64::MAX, None, Some(10)), VestingInformation::NoVesting);
    assert_eq!(c.get_locked_amount(u64::MAX - 1), 1_000);
    assert_eq!(c.get_locked_amount(u64::MAX), 0);
}

#[test]
fn release_end_saturates() {
    let c = contract(lockup(1_000, 0, 0, Some(u64::MAX), Some(10)), VestingInformation::NoVesting);
    // end clamps to u64::MAX, so time left at 10 is u64::MAX - 10
    let expected = (1_000u128 * (u64::MAX - 10) as u128) / u64::MAX as u128;
    assert_eq!(c.get_locked_amount(10), expected);
    assert_eq!(c.get_locked_amount(u64::MAX), 0);
}

#[test]
fn wide_intermediate_for_largest_amount() {
    let c = contract(lockup(u128::MAX, 0, 0, Some(3), Some(0)), VestingInformation::NoVesting);
    assert_eq!(c.get_locked_amount(1), u128::MAX / 3 * 2);
    assert_eq!(mul_div_floor(u128::MAX, u64::MAX - 1, u64::MAX), u128::MAX - u128::MAX / u64::MAX as u128);
    assert_eq!(mul_div_floor(u128::MAX, 7, 7), u128::MAX);
    assert_eq!(mul_div_floor(10, 1, 3), 3);
}

#[test]
fn vesting_schedule_cliff_and_end() {
    let c = contract(
        lockup(1_000, 0, 0, None, Some(0)),
        VestingInformation::VestingSchedule(schedule(0, 50, 100)),
    );
    let vs = schedule(0, 50, 100);
    assert_eq!(c.get_unvested_amount(vs, 49), 1_000);
    assert_eq!(c.get_unvested_amount(vs, 50), 500);
    assert_eq!(c.get_unvested_amount(vs, 75), 250);
    assert_eq!(c.get_unvested_amount(vs, 99), 10);
    assert_eq!(c.get_unvested_amount(vs, 100), 0);
    assert_eq!(c.get_unvested_amount(vs, u64::MAX), 0);
    assert_eq!(c.get_locked_amount(49), 1_000);
    assert_eq!(c.get_locked_amount(75), 250);
    assert_eq!(c.get_locked_amount(100), 0);
}

#[test]
fn cliff_at_start_keeps_everything_unvested() {
    let c = contract(
        lockup(999, 0, 0, None, Some(0)),
        VestingInformation::VestingSchedule(schedule(30, 30, 90)),
    );
    let vs = schedule(30, 30, 90);
    assert_eq!(c.get_unvested_amount(vs, 30), 999);
    assert_eq!(c.get_unvested_amount(vs, 90), 0);
}

#[test]
fn private_schedule_is_read_from_argument() {
    let c = contract(
        lockup(1_000, 0, 0, None, Some(0)),
        VestingInformation::VestingHash(vec![1, 2, 3]),
    );
    assert_eq!(c.get_unvested_amount(schedule(0, 0, 10), 5), 500);
    // the locked amount takes a private schedule to restrict nothing
    assert_eq!(c.get_locked_amount(5), 0);
}

#[test]
fn no_vesting_is_never_unvested() {
    let c = contract(lockup(1_000, 0, 0, None, Some(0)), VestingInformation::NoVesting);
    assert_eq!(c.get_unvested_amount(schedule(0, 10, 20), 5), 0);
}

#[test]
fn locked_amount_never_grows() {
    let c = contract(
        lockup(1_000_000, 0, 100, Some(1_000), Some(50)),
        VestingInformation::VestingSchedule(schedule(0, 200, 2_000)),
    );
    let mut last = u128::MAX;
    let mut t: u64 = 0;
    while t <= 3_000 {
        let now = c.get_locked_amount(t);
        assert!(now <= last, "grew at {}", t);
        assert!(now <= 1_000_000);
        assert_eq!(now, c.get_locked_amount(t));
        last = now;
        t += 7;
    }
    assert_eq!(last, 0);
}

#[test]
fn schedule_validation() {
    assert_eq!(VestingSchedule::new(0, 5, 10), Ok(schedule(0, 5, 10)));
    assert_eq!(VestingSchedule::new(0, 0, 10), Ok(schedule(0, 0, 10)));
    assert_eq!(VestingSchedule::new(0, 10, 10), Ok(schedule(0, 10, 10)));
    assert_eq!(VestingSchedule::new(6, 5, 10), Err(VestingScheduleError::CliffBeforeStart));
    assert_eq!(VestingSchedule::new(0, 11, 10), Err(VestingScheduleError::CliffAfterEnd));
    assert_eq!(VestingSchedule::new(10, 10, 10), Err(VestingScheduleError::EmptyPeriod));
    assert_eq!(schedule(11, 5, 1).assert_valid(), Err(VestingScheduleError::CliffBeforeStart));
    assert_eq!(schedule(1, 5, 9).assert_valid(), Ok(()));
}

#[test]
fn fallback_fills_missing_transfers_timestamp() {
    let c = contract(lockup(1_000, 0, 100, None, None), VestingInformation::NoVesting);
    let filled = c.clone().with_transfers_fallback(1_000);
    assert_eq!(
        filled.lockup_information.transfers_information,
        TransfersInformation::TransfersEnabled { transfers_timestamp: 1_000 }
    );
    assert_eq!(filled.get_locked_amount(1_099), 1_000);
    assert_eq!(filled.get_locked_amount(1_100), 0);
    let enabled = contract(lockup(1_000, 0, 100, None, Some(7)), VestingInformation::NoVesting);
    assert_eq!(enabled.clone().with_transfers_fallback(1_000), enabled);
}

#[test]
fn withdrawn_tokens_count_again_under_pre_cliff_vesting() {
    // Before the release starts the withdrawn tokens are not locked; once it
    // starts, a schedule still before its cliff holds back the whole amount.
    let c = contract(
        lockup(1_000_000, 10_000, 100, None, Some(50)),
        VestingInformation::VestingSchedule(schedule(0, 200, 2_000)),
    );
    assert_eq!(c.get_locked_amount(149), 990_000);
    assert_eq!(c.get_locked_amount(150), 1_000_000);
}
