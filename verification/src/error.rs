//! The stable, enumerable error codes of the ledger.

use vstd::prelude::*;

verus! {

/// Why an operation was rejected. Every error aborts the whole operation:
/// the caller never sees a partially mutated entry.
#[derive(Clone, Copy, Debug, PartialEq, Eq, Structural)]
pub enum StakeError {
    /// The caller does not control the entry it tried to operate on.
    Unauthorized,
    /// A zero amount was passed to a deposit or a withdrawal.
    InvalidAmount,
    /// A checked addition or multiplication left the working domain.
    Overflow,
    /// A withdrawal asked for more than the entry has staked.
    InsufficientStake,
    /// A checked subtraction would have gone negative.
    Underflow,
    /// The elapsed-time computation of a settlement would overflow.
    InvalidTimeStamp,
}

} // verus!
