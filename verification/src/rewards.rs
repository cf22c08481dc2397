//! What a stake has earned since it was last paid.
//!
//! The reward is the staked amount, times the rate in percent, times the
//! fraction of a year that has passed, scaled by the emission rate against a
//! baseline of ten. Every division drops its fraction, and every product has
//! to fit in `u64`.

use vstd::prelude::*;
use vstd::arithmetic::div_mod::lemma_div_is_ordered;
use crate::errors::ErrorCode;

verus! {

/// The seconds in a year of 365 days.
pub const SECONDS_PER_YEAR: u64 = 31_536_000;

/// The emission rate at which rewards are paid in full.
pub const BASELINE_EMISSION_RATE: u64 = 10;

/// The reward on `amount` at `apr` percent a year over `elapsed` seconds, at
/// the given emission rate.
pub open spec fn reward_amount(amount: nat, apr: nat, elapsed: nat, emission_rate: nat) -> nat {
    amount * apr * elapsed / 31_536_000 / 100 * emission_rate / 10
}

/// Whether one of the three products on the way to `reward_amount` leaves
/// `u64`.
pub open spec fn reward_overflows(amount: nat, apr: nat, elapsed: nat, emission_rate: nat) -> bool {
    ||| amount * apr > u64::MAX
    ||| amount * apr * elapsed > u64::MAX
    ||| amount * apr * elapsed / 31_536_000 / 100 * emission_rate > u64::MAX
}

/// The reward on `amount` at `apr` percent a year over `elapsed` seconds, at
/// the given emission rate. Fails with `ArithmeticOverflow` exactly when a
/// product leaves `u64`.
pub fn compute_rewards(amount: u64, apr: u64, elapsed: u64, emission_rate: u64) -> (r: Result<
    u64,
    ErrorCode,
>)
    ensures
        match r {
            Ok(rewards) => {
                &&& !reward_overflows(
                    amount as nat,
                    apr as nat,
                    elapsed as nat,
                    emission_rate as nat,
                )
                &&& rewards == reward_amount(
                    amount as nat,
                    apr as nat,
                    elapsed as nat,
                    emission_rate as nat,
                )
            },
            Err(e) => e == ErrorCode::ArithmeticOverflow && reward_overflows(
                amount as nat,
                apr as nat,
                elapsed as nat,
                emission_rate as nat,
            ),
        },
{
    let yearly: u64 = match amount.checked_mul(apr) {
        Some(product) => product,
        None => { return Err(ErrorCode::ArithmeticOverflow); },
    };
    let over_time: u64 = match yearly.checked_mul(elapsed) {
        Some(product) => product,
        None => { return Err(ErrorCode::ArithmeticOverflow); },
    };
    let nominal: u64 = over_time / SECONDS_PER_YEAR / 100;
    match nominal.checked_mul(emission_rate) {
        Some(product) => Ok(product / BASELINE_EMISSION_RATE),
        None => Err(ErrorCode::ArithmeticOverflow),
    }
}

/// Over no time nothing is earned, whatever the stake and the rates.
pub proof fn lemma_no_time_no_reward(amount: nat, apr: nat, emission_rate: nat)
    ensures
        reward_amount(amount, apr, 0, emission_rate) == 0,
        amount * apr <= u64::MAX ==> !reward_overflows(amount, apr, 0, emission_rate),
{
    assert(amount * apr * 0 == 0) by (nonlinear_arith);
    assert(0nat * emission_rate == 0) by (nonlinear_arith);
}

/// With the stake and both rates fixed, a longer time never earns less.
pub proof fn lemma_reward_monotonic(
    amount: nat,
    apr: nat,
    shorter: nat,
    longer: nat,
    emission_rate: nat,
)
    requires
        shorter <= longer,
    ensures
        0 <= reward_amount(amount, apr, shorter, emission_rate) <= reward_amount(
            amount,
            apr,
            longer,
            emission_rate,
        ),
        reward_overflows(amount, apr, shorter, emission_rate) ==> reward_overflows(
            amount,
            apr,
            longer,
            emission_rate,
        ),
{
    let yearly: nat = amount * apr;
    let low: nat = yearly * shorter;
    let high: nat = yearly * longer;
    assert(low <= high) by (nonlinear_arith)
        requires
            low == yearly * shorter,
            high == yearly * longer,
            shorter <= longer,
            yearly >= 0,
    ;
    lemma_div_is_ordered(low as int, high as int, 31_536_000);
    let low_year: nat = low / 31_536_000;
    let high_year: nat = high / 31_536_000;
    lemma_div_is_ordered(low_year as int, high_year as int, 100);
    let low_nominal: nat = low_year / 100;
    let high_nominal: nat = high_year / 100;
    assert(low_nominal * emission_rate <= high_nominal * emission_rate) by (nonlinear_arith)
        requires
            low_nominal <= high_nominal,
            emission_rate >= 0,
    ;
    lemma_div_is_ordered(
        (low_nominal * emission_rate) as int,
        (high_nominal * emission_rate) as int,
        10,
    );
}

/// Rewards stay within the emission schedule: a lower emission rate never
/// pays more, and rounding only ever takes away from the nominal reward of
/// `amount * apr * elapsed * emission_rate` over the seconds of a year times
/// a thousand.
pub proof fn lemma_reward_within_schedule(
    amount: nat,
    apr: nat,
    elapsed: nat,
    lower_rate: nat,
    emission_rate: nat,
)
    requires
        lower_rate <= emission_rate,
    ensures
        reward_amount(amount, apr, elapsed, lower_rate) <= reward_amount(
            amount,
            apr,
            elapsed,
            emission_rate,
        ),
        reward_amount(amount, apr, elapsed, emission_rate) * 31_536_000_000 <= amount
            * apr * elapsed * emission_rate,
{
    let product: nat = amount * apr * elapsed;
    let nominal: nat = product / 31_536_000 / 100;
    assert(nominal * lower_rate <= nominal * emission_rate) by (nonlinear_arith)
        requires
            lower_rate <= emission_rate,
            nominal >= 0,
    ;
    lemma_div_is_ordered((nominal * lower_rate) as int, (nominal * emission_rate) as int, 10);
    let scaled: nat = nominal * emission_rate;
    let reward: nat = scaled / 10;
    let per_year: nat = product / 31_536_000;
    assert(per_year * 31_536_000 <= product);
    assert(nominal * 100 <= per_year);
    assert(nominal * 3_153_600_000 <= product);
    assert(reward * 10 <= scaled);
    assert(reward * 31_536_000_000 <= product * emission_rate) by (nonlinear_arith)
        requires
            reward * 10 <= nominal * emission_rate,
            nominal * 3_153_600_000 <= product,
            emission_rate >= 0,
            nominal >= 0,
            reward >= 0,
    ;
}

} // verus!
