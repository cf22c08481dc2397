//! Histories: what holds of the economy after any sequence of operations.
//!
//! Staking and unstaking leave the economy alone, and a claim may be made
//! against any position whatever, so a sequence of the operations below
//! covers every way in which the operations of this library can follow one
//! another on one economy.

use vstd::prelude::*;
use crate::economy::Economy;
use crate::halving::halved_rate;
use crate::staking::{claim, Position};

verus! {

/// One operation on the economy, with what it is given.
pub enum Operation {
    /// `caller` asks for `amount` to be minted.
    Mint { caller: Seq<u8>, amount: nat },
    /// `amount` is transferred.
    Transfer { amount: nat },
    /// The rewards of `position` are claimed at `now`.
    Claim { position: Position, now: int },
    /// `caller` asks for a halving at `now`.
    Halving { caller: Seq<u8>, now: int },
}

/// The economy after one operation: as the operation leaves it where it is
/// carried out, and unchanged where it is refused.
pub open spec fn step(e: Economy, op: Operation) -> Economy {
    match op {
        Operation::Mint { caller, amount } => match e.mint(caller, amount) {
            Ok(next) => next,
            Err(_) => e,
        },
        Operation::Transfer { amount } => match e.transfer(amount) {
            Ok(next) => next,
            Err(_) => e,
        },
        Operation::Claim { position, now } => match claim(e, position, now) {
            Ok((next, _)) => next,
            Err(_) => e,
        },
        Operation::Halving { caller, now } => match e.apply_halving(caller, now) {
            Ok(next) => next,
            Err(_) => e,
        },
    }
}

/// The economy after a sequence of operations, the first one first.
pub open spec fn run(e: Economy, ops: Seq<Operation>) -> Economy
    decreases ops.len(),
{
    if ops.len() == 0 {
        e
    } else {
        step(run(e, ops.drop_last()), ops.last())
    }
}

/// No operation moves the cap, the authority, the burn percentage, the base
/// rate or the halving interval; none brings a supply that is within the cap
/// above it; none takes an economy out of its well-formedness; and none
/// raises an emission rate of at least one.
pub proof fn lemma_step_keeps_invariants(e: Economy, op: Operation)
    ensures
        step(e, op).max_supply == e.max_supply,
        step(e, op).authority == e.authority,
        step(e, op).burn_percentage == e.burn_percentage,
        step(e, op).staking_apr == e.staking_apr,
        step(e, op).halving_interval == e.halving_interval,
        e.within_cap() ==> step(e, op).within_cap(),
        e.wf() ==> step(e, op).wf(),
        e.emission_rate >= 1 ==> 1 <= step(e, op).emission_rate <= e.emission_rate,
{
    assert(e.emission_rate >= 1 ==> 1 <= halved_rate(e.emission_rate) <= e.emission_rate);
}

/// What `lemma_step_keeps_invariants` says of one operation holds of a whole
/// sequence.
pub proof fn lemma_run_keeps_invariants(e: Economy, ops: Seq<Operation>)
    ensures
        run(e, ops).max_supply == e.max_supply,
        run(e, ops).authority == e.authority,
        run(e, ops).burn_percentage == e.burn_percentage,
        run(e, ops).staking_apr == e.staking_apr,
        run(e, ops).halving_interval == e.halving_interval,
        e.within_cap() ==> run(e, ops).within_cap(),
        e.wf() ==> run(e, ops).wf(),
        e.emission_rate >= 1 ==> 1 <= run(e, ops).emission_rate <= e.emission_rate,
    decreases ops.len(),
{
    if ops.len() > 0 {
        lemma_run_keeps_invariants(e, ops.drop_last());
        lemma_step_keeps_invariants(run(e, ops.drop_last()), ops.last());
    }
}

/// From an economy whose supply is within its cap, the supply is within the
/// cap after every operation of every sequence of operations, whether each
/// was carried out or refused, and the cap never moves. Along the way an
/// emission rate of at least one neither rises nor reaches zero, and a
/// well-formed economy stays well-formed.
pub proof fn lemma_supply_never_exceeds_cap(e: Economy, ops: Seq<Operation>)
    requires
        e.total_supply <= e.max_supply,
    ensures
        forall|k: int|
            0 <= k <= ops.len() ==> {
                let then = run(e, #[trigger] ops.take(k));
                &&& then.total_supply <= then.max_supply
                &&& then.max_supply == e.max_supply
                &&& e.emission_rate >= 1 ==> 1 <= then.emission_rate <= e.emission_rate
                &&& e.wf() ==> then.wf()
            },
{
    assert forall|k: int| 0 <= k <= ops.len() implies ({
        let then = run(e, #[trigger] ops.take(k));
        &&& then.total_supply <= then.max_supply
        &&& then.max_supply == e.max_supply
        &&& e.emission_rate >= 1 ==> 1 <= then.emission_rate <= e.emission_rate
        &&& e.wf() ==> then.wf()
    }) by {
        lemma_run_keeps_invariants(e, ops.take(k));
    }
}

} // verus!
