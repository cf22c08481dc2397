//! What each operation reports when it has been carried out.
//!
//! An event carries the amounts that the caller then has to move in custody,
//! and the time at which the operation ran.

use vstd::prelude::*;
use crate::identity::Identity;

verus! {

/// A transfer was carried out: `amount` reaches the recipient, `burn_amount`
/// is destroyed.
#[derive(Clone, Copy, Debug, PartialEq, Eq)]
pub struct TransferEvent {
    pub from: Identity,
    pub to: Identity,
    pub amount: u64,
    pub burn_amount: u64,
    pub timestamp: i64,
}

/// `amount` was staked for `lock_period` seconds, to earn at `apr` percent.
#[derive(Clone, Copy, Debug, PartialEq, Eq)]
pub struct StakeEvent {
    pub staker: Identity,
    pub amount: u64,
    pub lock_period: u64,
    pub apr: u64,
    pub timestamp: i64,
}

/// `amount` left the stake and goes back to the staker.
#[derive(Clone, Copy, Debug, PartialEq, Eq)]
pub struct UnstakeEvent {
    pub staker: Identity,
    pub amount: u64,
    pub timestamp: i64,
}

/// `rewards` were issued to the staker.
#[derive(Clone, Copy, Debug, PartialEq, Eq)]
pub struct ClaimRewardsEvent {
    pub staker: Identity,
    pub rewards: u64,
    pub timestamp: i64,
}

/// The emission rate was halved, to `new_emission_rate`.
#[derive(Clone, Copy, Debug, PartialEq, Eq)]
pub struct HalvingAppliedEvent {
    pub new_emission_rate: u64,
    pub timestamp: i64,
}

} // verus!
