//! The points engine: the time-weighted reward formula and settlement.
//!
//! Points accrue in proportion to the staked amount and the elapsed time:
//! one whole staked unit held for one day earns one real point, stored at
//! a fixed-point scale of [`POINT_SCALE`]. Settlement converts the time
//! since the last update into a points delta and advances the entry's
//! clock; it runs before every balance-changing operation.

use vstd::prelude::*;

use crate::account::StakeAccount;
use crate::error::StakeError;

verus! {

/// Base units per one whole staked unit.
pub const LAMPORTS_PER_SOL: u64 = 1_000_000_000;

/// Seconds per day, the time unit of the reward rate.
pub const SECONDS_PER_DAY: u64 = 86_400;

/// Stored points earned per whole unit staked per day.
pub const POINTS_PER_SOL_PER_DAY: u64 = 1_000_000;

/// The fixed-point scale: stored point values are real points times this
/// factor, so that fractional points survive integer arithmetic.
pub const POINT_SCALE: u64 = 1_000_000;

/// The reward formula, with the floor divisions applied in exactly this
/// order: `staked * time * rate / units-per-whole / seconds-per-day`.
pub open spec fn points_formula(staked_amount: u64, time_passed: int) -> int {
    (staked_amount as int) * time_passed * (POINTS_PER_SOL_PER_DAY as int)
        / (LAMPORTS_PER_SOL as int) / (SECONDS_PER_DAY as int)
}

/// Whether the formula can be evaluated for these inputs: the 128-bit
/// multiply chain stays in range and the result fits back into 64 bits.
pub open spec fn points_computable(staked_amount: u64, time_passed: int) -> bool {
    &&& (staked_amount as int) * time_passed * (POINTS_PER_SOL_PER_DAY as int) <= u128::MAX
    &&& points_formula(staked_amount, time_passed) <= u64::MAX
}

/// Evaluates the reward formula over 128-bit intermediates, every step
/// checked; no result is ever clamped or truncated.
pub fn calculate_new_points(staked_amount: u64, time_passed_in_sec: i64) -> (r: Result<
    u64,
    StakeError,
>)
    requires
        time_passed_in_sec >= 0,
    ensures
        r is Ok <==> points_computable(staked_amount, time_passed_in_sec as int),
        r matches Ok(points) ==> points == points_formula(
            staked_amount,
            time_passed_in_sec as int,
        ),
        r matches Err(e) ==> e == StakeError::Overflow,
{
    let staked_wide: u128 = staked_amount as u128;
    let time_wide: u128 = time_passed_in_sec as u128;
    proof {
        assert(staked_wide * time_wide <= u128::MAX) by (nonlinear_arith)
            requires
                staked_wide <= u64::MAX,
                time_wide <= i64::MAX,
        ;
    }
    let product = match staked_wide.checked_mul(time_wide) {
        Some(p) => p,
        None => {
            return Err(StakeError::Overflow);
        },
    };
    let scaled = match product.checked_mul(POINTS_PER_SOL_PER_DAY as u128) {
        Some(s) => s,
        None => {
            return Err(StakeError::Overflow);
        },
    };
    let per_whole = match scaled.checked_div(LAMPORTS_PER_SOL as u128) {
        Some(q) => q,
        None => {
            return Err(StakeError::Overflow);
        },
    };
    let points_wide = match per_whole.checked_div(SECONDS_PER_DAY as u128) {
        Some(q) => q,
        None => {
            return Err(StakeError::Overflow);
        },
    };
    if points_wide > u64::MAX as u128 {
        return Err(StakeError::Overflow);
    }
    Ok(points_wide as u64)
}

/// The elapsed time a settlement at `current_time` would account for.
pub open spec fn time_passed_of(account: StakeAccount, current_time: i64) -> int {
    current_time - account.last_updated_time
}

/// Whether the elapsed-time subtraction stays inside the signed 64-bit
/// domain; its failure is a malformed or out-of-range current time.
pub open spec fn timestamp_ok(account: StakeAccount, current_time: i64) -> bool {
    i64::MIN <= time_passed_of(account, current_time) <= i64::MAX
}

/// Whether a settlement at `current_time` accrues any points: time must
/// have passed and something must be staked.
pub open spec fn accruing(account: StakeAccount, current_time: i64) -> bool {
    time_passed_of(account, current_time) > 0 && account.staked_amount > 0
}

/// The points delta a settlement at `current_time` adds.
pub open spec fn settle_delta(account: StakeAccount, current_time: i64) -> int {
    if accruing(account, current_time) {
        points_formula(account.staked_amount, time_passed_of(account, current_time))
    } else {
        0
    }
}

/// Whether a settlement at `current_time` succeeds.
pub open spec fn settle_ok(account: StakeAccount, current_time: i64) -> bool {
    &&& timestamp_ok(account, current_time)
    &&& (accruing(account, current_time) ==> points_computable(
        account.staked_amount,
        time_passed_of(account, current_time),
    ))
    &&& account.total_point + settle_delta(account, current_time) <= u64::MAX
}

/// The entry after a successful settlement at `current_time`: the delta
/// is added and the clock advances; nothing else moves.
pub open spec fn settled(account: StakeAccount, current_time: i64) -> StakeAccount {
    StakeAccount {
        owner: account.owner,
        staked_amount: account.staked_amount,
        total_point: (account.total_point + settle_delta(account, current_time)) as u64,
        last_updated_time: current_time,
        bump: account.bump,
    }
}

/// The error a failed settlement reports: a broken elapsed-time
/// subtraction is an invalid timestamp, everything else is an overflow.
pub open spec fn settle_error(account: StakeAccount, current_time: i64) -> StakeError {
    if !timestamp_ok(account, current_time) {
        StakeError::InvalidTimeStamp
    } else {
        StakeError::Overflow
    }
}

/// Computes the total points a settlement at `current_time` would leave,
/// without touching the entry; operations commit it only once every other
/// check of theirs has passed, so a failure never leaves a partial state.
pub(crate) fn settled_points(account: &StakeAccount, current_time: i64) -> (r: Result<
    u64,
    StakeError,
>)
    ensures
        r is Ok <==> settle_ok(*account, current_time),
        r matches Ok(total) ==> total == settled(*account, current_time).total_point,
        r matches Err(e) ==> e == settle_error(*account, current_time),
{
    let time_passed = match current_time.checked_sub(account.last_updated_time) {
        Some(t) => t,
        None => {
            return Err(StakeError::InvalidTimeStamp);
        },
    };
    if time_passed > 0 && account.staked_amount > 0 {
        let new_points = match calculate_new_points(account.staked_amount, time_passed) {
            Ok(p) => p,
            Err(e) => {
                return Err(e);
            },
        };
        match account.total_point.checked_add(new_points) {
            Some(total) => Ok(total),
            None => Err(StakeError::Overflow),
        }
    } else {
        Ok(account.total_point)
    }
}

/// Settles pending points on the entry itself: adds the accrued delta to
/// `total_point` and advances `last_updated_time` to `current_time`, the
/// clock advancing even when the delta is zero. On an error the entry is
/// untouched.
pub fn update_points(stake_account: &mut StakeAccount, current_time: i64) -> (r: Result<
    (),
    StakeError,
>)
    ensures
        r is Ok <==> settle_ok(*old(stake_account), current_time),
        r is Ok ==> *final(stake_account) == settled(*old(stake_account), current_time),
        r is Err ==> *final(stake_account) == *old(stake_account),
        r matches Err(e) ==> e == settle_error(*old(stake_account), current_time),
{
    let new_total = match settled_points(stake_account, current_time) {
        Ok(t) => t,
        Err(e) => {
            return Err(e);
        },
    };
    stake_account.total_point = new_total;
    stake_account.last_updated_time = current_time;
    Ok(())
}

} // verus!
