//! Proved laws of the ledger, stated over the same spec functions the
//! operations' contracts use.

use vstd::prelude::*;

use crate::account::StakeAccount;
use crate::ops::after_claim;
use crate::ops::after_stake;
use crate::ops::after_unstake;
use crate::ops::custody_delta;
use crate::ops::stake_ok;
use crate::ops::unstake_ok;
use crate::ops::RailTransfer;
use crate::points::settle_delta;
use crate::points::settle_ok;
use crate::points::settled;

verus! {

/// Settlement monotonicity: every successful operation leaves
/// `last_updated_time` equal to the time it ran at, so under a
/// non-decreasing clock the field never decreases across an entry's
/// lifetime.
pub proof fn lemma_settlement_monotonic(account: StakeAccount, amount: u64, current_time: i64)
    ensures
        settled(account, current_time).last_updated_time == current_time,
        after_stake(account, amount, current_time).last_updated_time == current_time,
        after_unstake(account, amount, current_time).last_updated_time == current_time,
        after_claim(account, current_time).last_updated_time == current_time,
        current_time >= account.last_updated_time ==> settled(
            account,
            current_time,
        ).last_updated_time >= account.last_updated_time,
{
}

/// Zero-yield edge cases: with nothing staked, or with no time passed,
/// settlement always succeeds, adds no points, and still advances the
/// clock.
pub proof fn lemma_zero_yield(account: StakeAccount, current_time: i64)
    requires
        i64::MIN <= current_time - account.last_updated_time <= i64::MAX,
        account.staked_amount == 0 || current_time - account.last_updated_time <= 0,
    ensures
        settle_ok(account, current_time),
        settle_delta(account, current_time) == 0,
        settled(account, current_time).total_point == account.total_point,
        settled(account, current_time).last_updated_time == current_time,
{
}

/// Conservation: a deposit followed immediately by a withdrawal of the
/// same amount, with no time in between, always succeeds, returns the
/// staked balance to its prior value, and moves a net of zero units over
/// the rail.
pub proof fn lemma_stake_unstake_conservation(
    account: StakeAccount,
    caller: [u8; 32],
    amount: u64,
    current_time: i64,
)
    requires
        stake_ok(account, caller, amount, current_time),
    ensures
        unstake_ok(after_stake(account, amount, current_time), caller, amount, current_time),
        after_unstake(
            after_stake(account, amount, current_time),
            amount,
            current_time,
        ).staked_amount == account.staked_amount,
        after_unstake(
            after_stake(account, amount, current_time),
            amount,
            current_time,
        ).total_point == after_stake(account, amount, current_time).total_point,
        custody_delta((RailTransfer { from_custody: false, amount })) + custody_delta(
            (RailTransfer { from_custody: true, amount }),
        ) == 0,
{
    let deposited = after_stake(account, amount, current_time);
    assert(settle_delta(deposited, current_time) == 0);
}

} // verus!
