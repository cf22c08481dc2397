//! The halving schedule: once an interval has passed since the last halving,
//! the emission rate is halved, and never falls below one.

use vstd::prelude::*;
use crate::economy::{Economy, NdtState};
use crate::errors::ErrorCode;
use crate::events::HalvingAppliedEvent;
use crate::identity::Identity;

verus! {

/// Half of an emission rate, rounded down, but at least one.
pub open spec fn halved_rate(rate: nat) -> nat {
    if rate / 2 >= 1 {
        rate / 2
    } else {
        1
    }
}

/// An emission rate after `times` halvings.
pub open spec fn halved_times(rate: nat, times: nat) -> nat
    decreases times,
{
    if times == 0 {
        rate
    } else {
        halved_rate(halved_times(rate, (times - 1) as nat))
    }
}

impl Economy {
    /// Whether at `now` a full interval has passed since the last halving.
    pub open spec fn halving_due(self, now: int) -> bool {
        now - self.last_halving >= self.halving_interval
    }

    /// This economy with its emission rate halved at `now`.
    pub open spec fn halve(self, now: int) -> Economy {
        Economy { emission_rate: halved_rate(self.emission_rate), last_halving: now, ..self }
    }

    /// This economy after the schedule was consulted at `now`: halved where a
    /// halving is due, and otherwise as it was.
    pub open spec fn check_halving(self, now: int) -> Economy {
        if self.halving_due(now) {
            self.halve(now)
        } else {
            self
        }
    }

    /// A halving forced by `caller` at `now`: refused to anyone but the
    /// authority, and refused before it is due.
    pub open spec fn apply_halving(self, caller: Seq<u8>, now: int) -> Result<Economy, ErrorCode> {
        if caller != self.authority {
            Err(ErrorCode::Unauthorized)
        } else if !self.halving_due(now) {
            Err(ErrorCode::HalvingNotDue)
        } else {
            Ok(self.halve(now))
        }
    }
}

/// Consults the schedule at `current_time`. Where a full interval has passed
/// since the last halving, halves the emission rate, records the time and
/// returns `true`; otherwise changes nothing and returns `false`.
pub fn check_and_apply_halving(state: &mut NdtState, current_time: i64) -> (applied: bool)
    ensures
        applied == old(state)@.halving_due(current_time as int),
        final(state)@ == old(state)@.check_halving(current_time as int),
        !applied ==> *final(state) == *old(state),
        old(state)@.within_cap() ==> final(state)@.within_cap(),
        old(state)@.wf() ==> final(state)@.wf(),
{
    let since: i128 = current_time as i128 - state.last_halving as i128;
    if since >= state.halving_interval as i128 {
        let half: u64 = state.emission_rate / 2;
        state.emission_rate = if half >= 1 { half } else { 1 };
        state.last_halving = current_time;
        true
    } else {
        false
    }
}

/// Halves the emission rate at `now`, at the request of `caller`.
///
/// Fails with `Unauthorized` where `caller` is not the authority, and
/// otherwise with `HalvingNotDue` where less than a full interval has passed
/// since the last halving.
pub fn apply_halving(state: &mut NdtState, caller: &Identity, now: i64) -> (r: Result<
    HalvingAppliedEvent,
    ErrorCode,
>)
    ensures
        match r {
            Ok(event) => {
                &&& old(state)@.apply_halving(caller@, now as int) == Ok::<Economy, ErrorCode>(
                    final(state)@,
                )
                &&& event.new_emission_rate == halved_rate(old(state)@.emission_rate)
                &&& event.timestamp == now
            },
            Err(e) => old(state)@.apply_halving(caller@, now as int) == Err::<Economy, ErrorCode>(
                e,
            ) && *final(state) == *old(state),
        },
        old(state)@.within_cap() ==> final(state)@.within_cap(),
        old(state)@.wf() ==> final(state)@.wf(),
{
    if !(*caller == state.authority) {
        return Err(ErrorCode::Unauthorized);
    }
    if !check_and_apply_halving(state, now) {
        return Err(ErrorCode::HalvingNotDue);
    }
    Ok(HalvingAppliedEvent { new_emission_rate: state.emission_rate, timestamp: now })
}

/// One second before the interval has passed nothing changes; at the very
/// second it has passed the rate is halved and the time recorded. From a rate
/// of ten the halved rate is five.
pub proof fn lemma_halving_boundary(e: Economy)
    ensures
        e.check_halving(e.last_halving + e.halving_interval - 1) == e,
        e.check_halving(e.last_halving + e.halving_interval) == e.halve(
            e.last_halving + e.halving_interval,
        ),
        e.emission_rate == 10 ==> e.check_halving(e.last_halving + e.halving_interval)
            == (Economy {
            emission_rate: 5,
            last_halving: e.last_halving + e.halving_interval,
            ..e
        }),
{
}

/// However often a rate is halved, it never reaches zero: from the first
/// halving on it is at least one, it stays at one once it is there, and a
/// rate that was at least one never rises.
pub proof fn lemma_halving_floor(rate: nat, times: nat)
    ensures
        times >= 1 ==> halved_times(rate, times) >= 1,
        rate >= 1 ==> 1 <= halved_times(rate, times) <= rate,
        halved_times(1, times) == 1,
    decreases times,
{
    if times > 0 {
        lemma_halving_floor(rate, (times - 1) as nat);
        lemma_halving_floor(1, (times - 1) as nat);
    }
}

/// From the initial rate of ten, the halvings give five, two, and then one
/// for ever.
pub proof fn lemma_halving_from_ten(times: nat)
    ensures
        halved_times(10, times) == if times == 0 {
            10nat
        } else if times == 1 {
            5nat
        } else if times == 2 {
            2nat
        } else {
            1nat
        },
    decreases times,
{
    if times > 0 {
        lemma_halving_from_ten((times - 1) as nat);
    }
}

} // verus!
