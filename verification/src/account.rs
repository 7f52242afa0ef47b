//! The per-owner ledger entry and its creation.

use vstd::prelude::*;

verus! {

broadcast use vstd::array::group_array_axioms;

/// One staking record per owner identity.
///
/// `total_point` is stored at a fixed-point scale: the stored value is the
/// real number of points times [`crate::points::POINT_SCALE`].
#[derive(Clone, Copy, Debug, PartialEq, Eq)]
pub struct StakeAccount {
    /// Identity of the controlling principal; set once at creation.
    pub owner: [u8; 32],
    /// Staked base units currently in the entry's custody.
    pub staked_amount: u64,
    /// Accumulated reward points, at the fixed-point scale.
    pub total_point: u64,
    /// Timestamp (seconds since the epoch) of the last point settlement.
    pub last_updated_time: i64,
    /// Opaque byte that reproduces the entry's deterministic storage
    /// address; immutable, authoritative for the entry's own signing.
    pub bump: u8,
}

/// Creates a fresh entry for `owner`: zero balances, clock seeded to
/// `current_time`. Uniqueness per owner is enforced by the host runtime's
/// deterministic address derivation, not here.
pub fn create_stake_account(owner: [u8; 32], bump: u8, current_time: i64) -> (account: StakeAccount)
    ensures
        account.owner == owner,
        account.staked_amount == 0,
        account.total_point == 0,
        account.last_updated_time == current_time,
        account.bump == bump,
{
    StakeAccount {
        owner,
        staked_amount: 0,
        total_point: 0,
        last_updated_time: current_time,
        bump,
    }
}

impl StakeAccount {
    /// The authorization check: does `caller` control this entry?
    pub fn is_owned_by(&self, caller: &[u8; 32]) -> (r: bool)
        ensures
            r == (self.owner == *caller),
    {
        let mut i: usize = 0;
        while i < 32
            invariant
                0 <= i <= 32,
                forall|j: int| 0 <= j < i ==> self.owner@[j] == caller@[j],
            decreases 32 - i,
        {
            if self.owner[i] != caller[i] {
                return false;
            }
            i += 1;
        }
        proof {
            assert(self.owner =~= *caller);
        }
        true
    }
}

} // verus!
