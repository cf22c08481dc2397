//! How the size of a stake and the length of its lock raise the reward rate.
//!
//! Both multipliers are percentages: 100 leaves the base rate as it is, 200
//! doubles it. The effective rate applies the tier multiplier first and the
//! time multiplier second, and drops the fraction after each step.

use vstd::prelude::*;
use crate::errors::ErrorCode;

verus! {

/// The selector from which the tier multiplier is 120.
pub const BRONZE_THRESHOLD: u64 = 500_000;

/// The selector from which the tier multiplier is 150.
pub const SILVER_THRESHOLD: u64 = 5_000_000;

/// The selector from which the tier multiplier is 200.
pub const GOLD_THRESHOLD: u64 = 50_000_000;

/// Ninety days in seconds: the lock from which the time multiplier is 120.
pub const THREE_MONTHS: u64 = 7_776_000;

/// A hundred and eighty days in seconds: the lock from which the time
/// multiplier is 150.
pub const SIX_MONTHS: u64 = 15_552_000;

/// Three hundred and sixty-five days in seconds: the lock from which the time
/// multiplier is 200.
pub const TWELVE_MONTHS: u64 = 31_536_000;

/// The tier multiplier of a selector, in percent.
pub open spec fn tier_multiplier(selector: nat) -> nat {
    if selector >= 50_000_000 {
        200
    } else if selector >= 5_000_000 {
        150
    } else if selector >= 500_000 {
        120
    } else {
        100
    }
}

/// The time multiplier of a lock period in seconds, in percent.
pub open spec fn time_multiplier(lock_period: nat) -> nat {
    if lock_period >= 31_536_000 {
        200
    } else if lock_period >= 15_552_000 {
        150
    } else if lock_period >= 7_776_000 {
        120
    } else {
        100
    }
}

/// A base rate after both multipliers, the fraction dropped after each.
pub open spec fn scaled_apr(base_apr: nat, tier: nat, time: nat) -> nat {
    base_apr * tier / 100 * time / 100
}

/// Whether one of the two products on the way to `scaled_apr` leaves `u64`.
pub open spec fn apr_overflows(base_apr: nat, tier: nat, time: nat) -> bool {
    ||| base_apr * tier > u64::MAX
    ||| base_apr * tier / 100 * time > u64::MAX
}

/// The rate at which a stake earns, given the base rate, the selector of its
/// tier and its lock period; `None` where it cannot be computed in `u64`.
pub open spec fn staking_apr(base_apr: nat, tier_selector: nat, lock_period: nat) -> Option<nat> {
    let tier: nat = tier_multiplier(tier_selector);
    let time: nat = time_multiplier(lock_period);
    if apr_overflows(base_apr, tier, time) {
        None
    } else {
        Some(scaled_apr(base_apr, tier, time))
    }
}

/// The tier multiplier of a selector, in percent.
pub fn get_tier_multiplier(total_staked: u64) -> (multiplier: u64)
    ensures
        multiplier == tier_multiplier(total_staked as nat),
{
    if total_staked >= GOLD_THRESHOLD {
        200
    } else if total_staked >= SILVER_THRESHOLD {
        150
    } else if total_staked >= BRONZE_THRESHOLD {
        120
    } else {
        100
    }
}

/// The time multiplier of a lock period in seconds, in percent.
pub fn get_time_multiplier(lock_period: u64) -> (multiplier: u64)
    ensures
        multiplier == time_multiplier(lock_period as nat),
{
    if lock_period >= TWELVE_MONTHS {
        200
    } else if lock_period >= SIX_MONTHS {
        150
    } else if lock_period >= THREE_MONTHS {
        120
    } else {
        100
    }
}

/// The rate at which a stake earns: the base rate, times the tier multiplier
/// of `tier_selector`, times the time multiplier of `lock_period`. Fails with
/// `ArithmeticOverflow` exactly when a product leaves `u64`.
pub fn effective_apr(base_apr: u64, tier_selector: u64, lock_period: u64) -> (r: Result<
    u64,
    ErrorCode,
>)
    ensures
        match r {
            Ok(apr) => staking_apr(base_apr as nat, tier_selector as nat, lock_period as nat)
                == Some(apr as nat),
            Err(e) => e == ErrorCode::ArithmeticOverflow && staking_apr(
                base_apr as nat,
                tier_selector as nat,
                lock_period as nat,
            ) is None,
        },
{
    let tier: u64 = get_tier_multiplier(tier_selector);
    let time: u64 = get_time_multiplier(lock_period);
    let by_tier: u64 = match base_apr.checked_mul(tier) {
        Some(product) => product / 100,
        None => { return Err(ErrorCode::ArithmeticOverflow); },
    };
    match by_tier.checked_mul(time) {
        Some(product) => Ok(product / 100),
        None => Err(ErrorCode::ArithmeticOverflow),
    }
}

/// The tier multiplier is a step function: it takes one of four values, and
/// it changes from one selector to the next exactly at the three thresholds.
pub proof fn lemma_tier_steps(selector: nat)
    ensures
        tier_multiplier(selector) == 100 || tier_multiplier(selector) == 120 || tier_multiplier(
            selector,
        ) == 150 || tier_multiplier(selector) == 200,
        tier_multiplier(selector) != tier_multiplier(selector + 1) <==> (selector + 1
            == BRONZE_THRESHOLD || selector + 1 == SILVER_THRESHOLD || selector + 1
            == GOLD_THRESHOLD),
        tier_multiplier(0) == 100,
        tier_multiplier(BRONZE_THRESHOLD as nat) == 120,
        tier_multiplier(SILVER_THRESHOLD as nat) == 150,
        tier_multiplier(GOLD_THRESHOLD as nat) == 200,
{
}

/// The time multiplier is a step function: it takes one of four values, and
/// it changes from one lock period to the next exactly at ninety, a hundred
/// and eighty, and three hundred and sixty-five days.
pub proof fn lemma_time_steps(lock_period: nat)
    ensures
        time_multiplier(lock_period) == 100 || time_multiplier(lock_period) == 120
            || time_multiplier(lock_period) == 150 || time_multiplier(lock_period) == 200,
        time_multiplier(lock_period) != time_multiplier(lock_period + 1) <==> (lock_period + 1
            == 90 * 86_400 || lock_period + 1 == 180 * 86_400 || lock_period + 1 == 365 * 86_400),
        time_multiplier(0) == 100,
        time_multiplier(THREE_MONTHS as nat) == 120,
        time_multiplier(SIX_MONTHS as nat) == 150,
        time_multiplier(TWELVE_MONTHS as nat) == 200,
{
}

/// A larger selector or a longer lock never lowers a multiplier.
pub proof fn lemma_multipliers_monotonic(a: nat, b: nat)
    requires
        a <= b,
    ensures
        tier_multiplier(a) <= tier_multiplier(b),
        time_multiplier(a) <= time_multiplier(b),
{
}

} // verus!
