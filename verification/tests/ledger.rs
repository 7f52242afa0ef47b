use staking_program::calculate_new_points;
use staking_program::claim_points;
use staking_program::create_stake_account;
use staking_program::stake;
use staking_program::unstake;
use staking_program::update_points;
use staking_program::RailTransfer;
use staking_program::StakeAccount;
use staking_program::StakeError;

const OWNER: [u8; 32] = [7u8; 32];
const STRANGER: [u8; 32] = [9u8; 32];

fn fresh_account(now: i64) -> StakeAccount {
    create_stake_account(OWNER, 254, now)
}

#[test]
fn create_seeds_the_entry() {
    let account = create_stake_account(OWNER, 254, 1_700_000_000);
    assert_eq!(account.owner, OWNER);
    assert_eq!(account.staked_amount, 0);
    assert_eq!(account.total_point, 0);
    assert_eq!(account.last_updated_time, 1_700_000_000);
    assert_eq!(account.bump, 254);
}

#[test]
fn one_whole_unit_for_one_day_is_one_point() {
    assert_eq!(calculate_new_points(1_000_000_000, 86_400), Ok(1_000_000));
}

#[test]
fn formula_floors_each_division_in_order() {
    // 2 whole units for half a day: exactly one stored point.
    assert_eq!(calculate_new_points(2_000_000_000, 43_200), Ok(1_000_000));
    // One base unit for one second rounds down to nothing.
    assert_eq!(calculate_new_points(1, 1), Ok(0));
    // Half a whole unit for one day: half a point, at the stored scale.
    assert_eq!(calculate_new_points(500_000_000, 86_400), Ok(500_000));
}

#[test]
fn formula_overflow_in_the_multiply_chain() {
    assert_eq!(
        calculate_new_points(u64::MAX, i64::MAX),
        Err(StakeError::Overflow)
    );
}

#[test]
fn formula_overflow_when_leaving_the_wide_domain() {
    // The 128-bit chain stays in range but the result does not fit u64.
    assert_eq!(
        calculate_new_points(u64::MAX, 1_000_000_000),
        Err(StakeError::Overflow)
    );
}

#[test]
fn settlement_with_nothing_staked_yields_zero_but_advances_clock() {
    let mut account = fresh_account(100);
    assert_eq!(update_points(&mut account, 8_000), Ok(()));
    assert_eq!(account.total_point, 0);
    assert_eq!(account.last_updated_time, 8_000);
}

#[test]
fn settlement_with_no_time_passed_yields_zero_but_advances_clock() {
    let mut account = fresh_account(100);
    account.staked_amount = 5_000_000_000;
    assert_eq!(update_points(&mut account, 40), Ok(()));
    assert_eq!(account.total_point, 0);
    assert_eq!(account.last_updated_time, 40);
}

#[test]
fn settlement_accrues_the_formula_delta() {
    let mut account = fresh_account(0);
    account.staked_amount = 2_000_000_000;
    assert_eq!(update_points(&mut account, 86_400), Ok(()));
    assert_eq!(account.total_point, 2_000_000);
    assert_eq!(account.last_updated_time, 86_400);
}

#[test]
fn settlement_rejects_a_timestamp_whose_subtraction_overflows() {
    let mut account = fresh_account(i64::MIN);
    let before = account;
    assert_eq!(
        update_points(&mut account, 1),
        Err(StakeError::InvalidTimeStamp)
    );
    assert_eq!(account, before);
}

#[test]
fn settlement_rejects_a_point_total_that_would_saturate() {
    let mut account = fresh_account(0);
    account.staked_amount = 1_000_000_000;
    account.total_point = u64::MAX;
    let before = account;
    assert_eq!(update_points(&mut account, 86_400), Err(StakeError::Overflow));
    assert_eq!(account, before);
}

#[test]
fn deposit_moves_units_into_custody() {
    let mut account = fresh_account(0);
    let transfer = stake(&mut account, &OWNER, 2_000_000_000, 0).unwrap();
    assert_eq!(
        transfer,
        RailTransfer {
            from_custody: false,
            amount: 2_000_000_000
        }
    );
    assert_eq!(account.staked_amount, 2_000_000_000);
    assert_eq!(account.total_point, 0);
}

#[test]
fn deposit_of_zero_is_rejected() {
    let mut account = fresh_account(0);
    let before = account;
    assert_eq!(
        stake(&mut account, &OWNER, 0, 0),
        Err(StakeError::InvalidAmount)
    );
    assert_eq!(account, before);
}

#[test]
fn withdraw_of_zero_is_rejected() {
    let mut account = fresh_account(0);
    account.staked_amount = 10;
    let before = account;
    assert_eq!(
        unstake(&mut account, &OWNER, 0, 0),
        Err(StakeError::InvalidAmount)
    );
    assert_eq!(account, before);
}

#[test]
fn withdraw_beyond_the_balance_is_rejected() {
    let mut account = fresh_account(0);
    account.staked_amount = 10;
    let before = account;
    assert_eq!(
        unstake(&mut account, &OWNER, 11, 0),
        Err(StakeError::InsufficientStake)
    );
    assert_eq!(account, before);
}

#[test]
fn operations_from_a_stranger_are_rejected() {
    let mut account = fresh_account(0);
    account.staked_amount = 10;
    let before = account;
    assert_eq!(
        stake(&mut account, &STRANGER, 5, 0),
        Err(StakeError::Unauthorized)
    );
    assert_eq!(
        unstake(&mut account, &STRANGER, 5, 0),
        Err(StakeError::Unauthorized)
    );
    assert_eq!(
        claim_points(&mut account, &STRANGER, 0),
        Err(StakeError::Unauthorized)
    );
    assert_eq!(account, before);
}

#[test]
fn deposit_then_withdraw_conserves_the_balance() {
    let mut account = fresh_account(500);
    account.staked_amount = 3;
    let deposit = stake(&mut account, &OWNER, 1_000, 500).unwrap();
    let withdrawal = unstake(&mut account, &OWNER, 1_000, 500).unwrap();
    assert_eq!(account.staked_amount, 3);
    assert_eq!(deposit.amount, withdrawal.amount);
    assert!(!deposit.from_custody);
    assert!(withdrawal.from_custody);
}

#[test]
fn claim_pays_the_floored_total_and_resets_it() {
    let mut account = fresh_account(0);
    account.total_point = 1_999_999;
    assert_eq!(claim_points(&mut account, &OWNER, 0), Ok(1));
    assert_eq!(account.total_point, 0);
}

#[test]
fn claim_settles_pending_accrual_first() {
    let mut account = fresh_account(0);
    account.staked_amount = 1_000_000_000;
    // One day of pending accrual is claimed along with what was stored.
    account.total_point = 3_000_000;
    assert_eq!(claim_points(&mut account, &OWNER, 86_400), Ok(4));
    assert_eq!(account.total_point, 0);
    assert_eq!(account.last_updated_time, 86_400);
}

#[test]
fn stake_accrue_withdraw_claim_scenario() {
    let mut account = fresh_account(0);

    let deposit = stake(&mut account, &OWNER, 2_000_000_000, 0).unwrap();
    assert_eq!(deposit.amount, 2_000_000_000);
    assert_eq!(account.staked_amount, 2_000_000_000);
    assert_eq!(account.total_point, 0);

    let withdrawal = unstake(&mut account, &OWNER, 1_000_000_000, 86_400).unwrap();
    assert_eq!(withdrawal.amount, 1_000_000_000);
    assert!(withdrawal.from_custody);
    assert_eq!(account.total_point, 2_000_000);
    assert_eq!(account.staked_amount, 1_000_000_000);

    assert_eq!(claim_points(&mut account, &OWNER, 86_400), Ok(2));
    assert_eq!(account.total_point, 0);
    assert_eq!(account.last_updated_time, 86_400);
}

#[test]
fn timestamps_track_the_most_recent_operation() {
    let mut account = fresh_account(0);
    stake(&mut account, &OWNER, 1_000, 10).unwrap();
    assert_eq!(account.last_updated_time, 10);
    unstake(&mut account, &OWNER, 500, 20).unwrap();
    assert_eq!(account.last_updated_time, 20);
    claim_points(&mut account, &OWNER, 30).unwrap();
    assert_eq!(account.last_updated_time, 30);
}
