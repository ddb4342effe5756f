//! The linear vesting formula and the grant-local claim arithmetic on
//! concrete schedules.

use tokenvesting::accounts::{AccountId, EmployeeAccount, ErrorCode};
use tokenvesting::vesting::{claimable_amount, vested_amount};

fn grant(start_time: i64, end_time: i64, cliff_time: i64, total_amount: u64) -> EmployeeAccount {
    EmployeeAccount {
        beneficiary: AccountId { key: 1 },
        start_time,
        end_time,
        cliff_time,
        vesting_account: 0,
        total_amount,
        total_withdrawn: 0,
        bump: 0,
    }
}

#[test]
fn vested_is_linear_inside_the_window() {
    let g = grant(0, 100, 0, 1000);
    assert_eq!(vested_amount(&g, 0), Ok(0));
    assert_eq!(vested_amount(&g, 25), Ok(250));
    assert_eq!(vested_amount(&g, 50), Ok(500));
    assert_eq!(vested_amount(&g, 99), Ok(990));
    assert_eq!(vested_amount(&g, 100), Ok(1000));
}

#[test]
fn vested_rounds_down() {
    let g = grant(0, 3, 0, 10);
    assert_eq!(vested_amount(&g, 1), Ok(3));
    assert_eq!(vested_amount(&g, 2), Ok(6));
}

#[test]
fn vested_is_zero_at_the_window_start() {
    let g = grant(40, 140, 0, 777);
    assert_eq!(vested_amount(&g, 40), Ok(0));
}

#[test]
fn vested_is_clamped_to_zero_before_the_window() {
    let g = grant(100, 200, 0, 1000);
    assert_eq!(vested_amount(&g, 50), Ok(0));
    assert_eq!(claimable_amount(&g, 50), Err(ErrorCode::NothingToClaim));
}

#[test]
fn vested_is_the_whole_allocation_from_the_end_on() {
    let g = grant(0, 100, 0, 1000);
    assert_eq!(vested_amount(&g, 100), Ok(1000));
    assert_eq!(vested_amount(&g, 101), Ok(1000));
    assert_eq!(vested_amount(&g, i64::MAX), Ok(1000));
}

#[test]
fn vested_never_decreases_over_time() {
    let g = grant(-50, 150, 0, 12345);
    let mut last: u64 = 0;
    let mut now: i64 = -80;
    while now <= 180 {
        let v = vested_amount(&g, now).unwrap();
        assert!(v >= last);
        assert!(v <= g.total_amount);
        last = v;
        now += 1;
    }
}

#[test]
fn empty_window_is_rejected_whenever_asked() {
    let g = grant(50, 50, 0, 1000);
    assert_eq!(vested_amount(&g, 0), Err(ErrorCode::InvalidVestingPeriod));
    assert_eq!(vested_amount(&g, 50), Err(ErrorCode::InvalidVestingPeriod));
    assert_eq!(vested_amount(&g, 1000), Err(ErrorCode::InvalidVestingPeriod));
    assert_eq!(claimable_amount(&g, 1000), Err(ErrorCode::InvalidVestingPeriod));
}

#[test]
fn oversized_product_is_rejected_not_wrapped() {
    let g = grant(0, 100, 0, u64::MAX);
    assert_eq!(vested_amount(&g, 50), Err(ErrorCode::CalculationOverflow));
    assert_eq!(claimable_amount(&g, 50), Err(ErrorCode::CalculationOverflow));
    // At the window's end no multiplication happens at all.
    assert_eq!(vested_amount(&g, 100), Ok(u64::MAX));
}

#[test]
fn cliff_gates_every_claim() {
    let mut g = grant(0, 100, 30, 1000);
    assert_eq!(claimable_amount(&g, 10), Err(ErrorCode::ClaimNotAvailableYet));
    assert_eq!(claimable_amount(&g, 29), Err(ErrorCode::ClaimNotAvailableYet));
    assert_eq!(claimable_amount(&g, 30), Ok(300));
    // The cliff may even sit past the window's end; until then nothing is
    // claimable, afterwards everything is.
    g.cliff_time = 150;
    assert_eq!(claimable_amount(&g, 140), Err(ErrorCode::ClaimNotAvailableYet));
    assert_eq!(claimable_amount(&g, 150), Ok(1000));
}

#[test]
fn claimable_subtracts_what_was_withdrawn() {
    let mut g = grant(0, 100, 0, 1000);
    g.total_withdrawn = 300;
    assert_eq!(claimable_amount(&g, 50), Ok(200));
    assert_eq!(claimable_amount(&g, 30), Err(ErrorCode::NothingToClaim));
    // Withdrawals past the vested amount are treated as nothing owed, not
    // as underflow.
    g.total_withdrawn = 900;
    assert_eq!(claimable_amount(&g, 50), Err(ErrorCode::NothingToClaim));
}

#[test]
fn zero_allocation_never_pays() {
    let g = grant(0, 100, 0, 0);
    assert_eq!(vested_amount(&g, 50), Ok(0));
    assert_eq!(claimable_amount(&g, 50), Err(ErrorCode::NothingToClaim));
    assert_eq!(claimable_amount(&g, 200), Err(ErrorCode::NothingToClaim));
}

#[test]
fn reversed_window_vests_all_from_its_end_on() {
    // end_time before start_time is accepted at creation; past end_time the
    // whole allocation counts as vested.
    let g = grant(100, 10, 0, 500);
    assert_eq!(vested_amount(&g, 10), Ok(500));
    assert_eq!(vested_amount(&g, 50), Ok(500));
    assert_eq!(vested_amount(&g, 5), Ok(0));
}
