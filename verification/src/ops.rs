//! The ledger operations: deposit, withdraw and claim.
//!
//! Each operation authorizes the caller, settles pending points, and only
//! then applies its own effect. Deposits and withdrawals also move base
//! units on the external value-transfer rail; the movement an operation
//! commits to is returned as a [`RailTransfer`] for the host runtime to
//! perform, inside the same atomic transaction as the entry mutation.

use vstd::prelude::*;

use crate::account::StakeAccount;
use crate::error::StakeError;
use crate::points::settle_error;
use crate::points::settle_ok;
use crate::points::settled;
use crate::points::settled_points;
use crate::points::POINT_SCALE;

verus! {

/// One movement of base units on the external value-transfer rail.
#[derive(Clone, Copy, Debug, PartialEq, Eq, Structural)]
pub struct RailTransfer {
    /// `true` moves units out of the entry's custody back to the owner,
    /// authorized by the entry's own derived signing authority; `false`
    /// moves units from the caller into custody.
    pub from_custody: bool,
    /// How many base units move.
    pub amount: u64,
}

/// The net change a rail movement makes to the entry's custody.
pub open spec fn custody_delta(transfer: RailTransfer) -> int {
    if transfer.from_custody {
        -(transfer.amount as int)
    } else {
        transfer.amount as int
    }
}

/// Whether a deposit of `amount` at `current_time` by `caller` succeeds.
pub open spec fn stake_ok(
    account: StakeAccount,
    caller: [u8; 32],
    amount: u64,
    current_time: i64,
) -> bool {
    &&& caller == account.owner
    &&& amount > 0
    &&& settle_ok(account, current_time)
    &&& account.staked_amount + amount <= u64::MAX
}

/// The entry after a successful deposit: settled, then `amount` more in
/// custody.
pub open spec fn after_stake(account: StakeAccount, amount: u64, current_time: i64) -> StakeAccount {
    let entry = settled(account, current_time);
    StakeAccount {
        owner: entry.owner,
        staked_amount: (entry.staked_amount + amount) as u64,
        total_point: entry.total_point,
        last_updated_time: entry.last_updated_time,
        bump: entry.bump,
    }
}

/// The error a failed deposit reports, in the order the checks run.
pub open spec fn stake_failure(
    account: StakeAccount,
    caller: [u8; 32],
    amount: u64,
    current_time: i64,
) -> StakeError {
    if caller != account.owner {
        StakeError::Unauthorized
    } else if amount == 0 {
        StakeError::InvalidAmount
    } else if !settle_ok(account, current_time) {
        settle_error(account, current_time)
    } else {
        StakeError::Overflow
    }
}

/// Deposit: settles points, then adds `amount` to the staked balance.
/// The returned rail movement brings `amount` units from the caller into
/// the entry's custody; the host runtime performs it and aborts the whole
/// transaction if the rail rejects it.
pub fn stake(
    account: &mut StakeAccount,
    caller: &[u8; 32],
    amount: u64,
    current_time: i64,
) -> (r: Result<RailTransfer, StakeError>)
    ensures
        r is Ok <==> stake_ok(*old(account), *caller, amount, current_time),
        r matches Ok(transfer) ==> {
            &&& *final(account) == after_stake(*old(account), amount, current_time)
            &&& transfer == (RailTransfer { from_custody: false, amount })
        },
        r is Err ==> *final(account) == *old(account),
        r matches Err(e) ==> e == stake_failure(*old(account), *caller, amount, current_time),
{
    if !account.is_owned_by(caller) {
        return Err(StakeError::Unauthorized);
    }
    if amount == 0 {
        return Err(StakeError::InvalidAmount);
    }
    let new_total = match settled_points(account, current_time) {
        Ok(t) => t,
        Err(e) => {
            return Err(e);
        },
    };
    let new_staked = match account.staked_amount.checked_add(amount) {
        Some(s) => s,
        None => {
            return Err(StakeError::Overflow);
        },
    };
    account.total_point = new_total;
    account.last_updated_time = current_time;
    account.staked_amount = new_staked;
    Ok(RailTransfer { from_custody: false, amount })
}

/// Whether a withdrawal of `amount` at `current_time` by `caller`
/// succeeds.
pub open spec fn unstake_ok(
    account: StakeAccount,
    caller: [u8; 32],
    amount: u64,
    current_time: i64,
) -> bool {
    &&& caller == account.owner
    &&& amount > 0
    &&& settle_ok(account, current_time)
    &&& account.staked_amount >= amount
}

/// The entry after a successful withdrawal: settled, then `amount` fewer
/// in custody.
pub open spec fn after_unstake(
    account: StakeAccount,
    amount: u64,
    current_time: i64,
) -> StakeAccount {
    let entry = settled(account, current_time);
    StakeAccount {
        owner: entry.owner,
        staked_amount: (entry.staked_amount - amount) as u64,
        total_point: entry.total_point,
        last_updated_time: entry.last_updated_time,
        bump: entry.bump,
    }
}

/// The error a failed withdrawal reports, in the order the checks run.
pub open spec fn unstake_failure(
    account: StakeAccount,
    caller: [u8; 32],
    amount: u64,
    current_time: i64,
) -> StakeError {
    if caller != account.owner {
        StakeError::Unauthorized
    } else if amount == 0 {
        StakeError::InvalidAmount
    } else if !settle_ok(account, current_time) {
        settle_error(account, current_time)
    } else {
        StakeError::InsufficientStake
    }
}

/// Withdraw: settles points, checks the balance covers `amount`, then
/// subtracts it. The returned rail movement hands `amount` units from the
/// entry's custody back to the owner, authorized by the entry's own
/// derivation material rather than the caller's signature.
pub fn unstake(
    account: &mut StakeAccount,
    caller: &[u8; 32],
    amount: u64,
    current_time: i64,
) -> (r: Result<RailTransfer, StakeError>)
    ensures
        r is Ok <==> unstake_ok(*old(account), *caller, amount, current_time),
        r matches Ok(transfer) ==> {
            &&& *final(account) == after_unstake(*old(account), amount, current_time)
            &&& transfer == (RailTransfer { from_custody: true, amount })
        },
        r is Err ==> *final(account) == *old(account),
        r matches Err(e) ==> e == unstake_failure(*old(account), *caller, amount, current_time),
{
    if !account.is_owned_by(caller) {
        return Err(StakeError::Unauthorized);
    }
    if amount == 0 {
        return Err(StakeError::InvalidAmount);
    }
    let new_total = match settled_points(account, current_time) {
        Ok(t) => t,
        Err(e) => {
            return Err(e);
        },
    };
    if account.staked_amount < amount {
        return Err(StakeError::InsufficientStake);
    }
    let new_staked = match account.staked_amount.checked_sub(amount) {
        Some(s) => s,
        None => {
            // Unreachable behind the balance check, guarded defensively.
            return Err(StakeError::Underflow);
        },
    };
    account.total_point = new_total;
    account.last_updated_time = current_time;
    account.staked_amount = new_staked;
    Ok(RailTransfer { from_custody: true, amount })
}

/// Whether a claim at `current_time` by `caller` succeeds.
pub open spec fn claim_ok(account: StakeAccount, caller: [u8; 32], current_time: i64) -> bool {
    &&& caller == account.owner
    &&& settle_ok(account, current_time)
}

/// What a successful claim pays out: the settled stored points brought
/// back to the real-point scale by floor division; the sub-scale
/// remainder is discarded, not carried forward.
pub open spec fn claimable_points(account: StakeAccount, current_time: i64) -> int {
    settled(account, current_time).total_point as int / POINT_SCALE as int
}

/// The entry after a successful claim: settled, then the stored points
/// reset to zero.
pub open spec fn after_claim(account: StakeAccount, current_time: i64) -> StakeAccount {
    let entry = settled(account, current_time);
    StakeAccount {
        owner: entry.owner,
        staked_amount: entry.staked_amount,
        total_point: 0,
        last_updated_time: entry.last_updated_time,
        bump: entry.bump,
    }
}

/// The error a failed claim reports, in the order the checks run.
pub open spec fn claim_failure(
    account: StakeAccount,
    caller: [u8; 32],
    current_time: i64,
) -> StakeError {
    if caller != account.owner {
        StakeError::Unauthorized
    } else {
        settle_error(account, current_time)
    }
}

/// Claim: settles points so pending accrual counts, pays out the stored
/// total at the real-point scale, and resets the stored total to zero.
/// No units move on the rail; issuing a reward asset for the claimed
/// value is the surrounding system's concern.
pub fn claim_points(account: &mut StakeAccount, caller: &[u8; 32], current_time: i64) -> (r: Result<
    u64,
    StakeError,
>)
    ensures
        r is Ok <==> claim_ok(*old(account), *caller, current_time),
        r matches Ok(points) ==> {
            &&& points == claimable_points(*old(account), current_time)
            &&& *final(account) == after_claim(*old(account), current_time)
        },
        r is Err ==> *final(account) == *old(account),
        r matches Err(e) ==> e == claim_failure(*old(account), *caller, current_time),
{
    if !account.is_owned_by(caller) {
        return Err(StakeError::Unauthorized);
    }
    let new_total = match settled_points(account, current_time) {
        Ok(t) => t,
        Err(e) => {
            return Err(e);
        },
    };
    let claimable = new_total / POINT_SCALE;
    account.total_point = 0;
    account.last_updated_time = current_time;
    Ok(claimable)
}

} // verus!
