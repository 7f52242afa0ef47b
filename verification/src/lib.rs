//! A value-staking ledger.
//!
//! Owners deposit base units of a native asset, accrue reward points in
//! proportion to the amount staked and the time it is held, and withdraw
//! both the units and the accrued points. This crate holds the verified
//! core: the fixed-point reward formula, the per-owner ledger entry with
//! its invariants, and the deposit / withdraw / claim state transitions,
//! all under checked integer arithmetic. Account storage, signature
//! checking and the native-asset transfer rail belong to the surrounding
//! host runtime, which calls into this crate with plain values.

pub mod account;
pub mod error;
pub mod laws;
pub mod ops;
pub mod points;

pub use account::create_stake_account;
pub use account::StakeAccount;
pub use error::StakeError;
pub use ops::claim_points;
pub use ops::stake;
pub use ops::unstake;
pub use ops::RailTransfer;
pub use points::calculate_new_points;
pub use points::update_points;
