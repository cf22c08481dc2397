//! The economy: how much of the asset exists, the cap it may never pass, and
//! the parameters of burning, staking and emission.
//!
//! `NdtState` is the record as it is stored; `Economy` is the same record in
//! unbounded integers, and every operation is stated as a function on it.

use vstd::prelude::*;
use crate::errors::ErrorCode;
use crate::events::TransferEvent;
use crate::identity::Identity;

verus! {

/// The share of every transfer that is burnt at the start, in percent.
pub const INITIAL_BURN_PERCENTAGE: u64 = 1;

/// The base staking rate at the start, in percent a year.
pub const INITIAL_STAKING_APR: u64 = 5;

/// The cap on the supply.
pub const MAX_SUPPLY: u64 = 100_000_000_000;

/// The time between two halvings at the start: 180 days in seconds.
pub const INITIAL_HALVING_INTERVAL: i64 = 15_552_000;

/// The emission rate at the start, at which rewards are paid in full.
pub const INITIAL_EMISSION_RATE: u64 = 10;

/// The one record of the economy.
#[derive(Clone, Copy, Debug, PartialEq, Eq)]
pub struct NdtState {
    /// Who may mint and force a halving.
    pub authority: Identity,
    /// How much of the asset exists.
    pub total_supply: u64,
    /// The share of every transfer that is burnt, in percent.
    pub burn_percentage: u64,
    /// The base staking rate, in percent a year.
    pub staking_apr: u64,
    /// The cap that `total_supply` may never pass.
    pub max_supply: u64,
    /// The seconds between two halvings.
    pub halving_interval: i64,
    /// When the emission rate was last halved.
    pub last_halving: i64,
    /// The factor by which rewards are scaled, out of ten.
    pub emission_rate: u64,
}

/// The economy in unbounded integers.
pub struct Economy {
    pub authority: Seq<u8>,
    pub total_supply: nat,
    pub burn_percentage: nat,
    pub staking_apr: nat,
    pub max_supply: nat,
    pub halving_interval: int,
    pub last_halving: int,
    pub emission_rate: nat,
}

impl View for NdtState {
    type V = Economy;

    open spec fn view(&self) -> Economy {
        Economy {
            authority: self.authority@,
            total_supply: self.total_supply as nat,
            burn_percentage: self.burn_percentage as nat,
            staking_apr: self.staking_apr as nat,
            max_supply: self.max_supply as nat,
            halving_interval: self.halving_interval as int,
            last_halving: self.last_halving as int,
            emission_rate: self.emission_rate as nat,
        }
    }
}

impl Economy {
    /// The supply is within its cap.
    pub open spec fn within_cap(self) -> bool {
        self.total_supply <= self.max_supply
    }

    /// The supply is within its cap, the burn is a percentage, and the
    /// emission rate has not fallen to nothing.
    pub open spec fn wf(self) -> bool {
        &&& self.within_cap()
        &&& self.burn_percentage <= 100
        &&& self.emission_rate >= 1
    }

    /// The economy as it is created at `now`, under `authority`.
    pub open spec fn genesis(authority: Seq<u8>, now: int) -> Economy {
        Economy {
            authority,
            total_supply: 0,
            burn_percentage: 1,
            staking_apr: 5,
            max_supply: 100_000_000_000,
            halving_interval: 15_552_000,
            last_halving: now,
            emission_rate: 10,
        }
    }

    /// This economy with `amount` more in supply.
    pub open spec fn issue(self, amount: nat) -> Economy {
        Economy { total_supply: self.total_supply + amount, ..self }
    }

    /// Minting `amount` at the request of `caller`: refused to anyone but the
    /// authority, and refused where the supply would pass the cap.
    pub open spec fn mint(self, caller: Seq<u8>, amount: nat) -> Result<Economy, ErrorCode> {
        if caller != self.authority {
            Err(ErrorCode::Unauthorized)
        } else if self.total_supply + amount > self.max_supply {
            Err(ErrorCode::MaxSupplyExceeded)
        } else {
            Ok(self.issue(amount))
        }
    }

    /// The part of a transfer of `amount` that is burnt.
    pub open spec fn burn_share(self, amount: nat) -> nat {
        amount * self.burn_percentage / 100
    }

    /// Whether a transfer of `amount` cannot be computed: the product with
    /// the burn percentage leaves `u64`, or more would be burnt than is
    /// transferred or than exists.
    pub open spec fn transfer_overflows(self, amount: nat) -> bool {
        ||| amount * self.burn_percentage > u64::MAX
        ||| self.burn_share(amount) > amount
        ||| self.burn_share(amount) > self.total_supply
    }

    /// Transferring `amount`: the burnt share leaves the supply.
    pub open spec fn transfer(self, amount: nat) -> Result<Economy, ErrorCode> {
        if self.transfer_overflows(amount) {
            Err(ErrorCode::ArithmeticOverflow)
        } else {
            Ok(
                Economy {
                    total_supply: (self.total_supply - self.burn_share(amount)) as nat,
                    ..self
                },
            )
        }
    }
}

/// What a transfer delivers and what it burns add up to what was sent. In a
/// well-formed economy no transfer burns more than it moves; and at a burn of
/// one percent the burnt part is a hundredth of what was sent, rounded down,
/// and the transfer is refused only where less than that exists.
pub proof fn lemma_burn_split(e: Economy, amount: nat)
    ensures
        e.transfer(amount) is Ok ==> e.burn_share(amount) <= amount && (amount - e.burn_share(
            amount,
        )) + e.burn_share(amount) == amount,
        e.wf() ==> e.burn_share(amount) <= amount,
        e.burn_percentage == 1 ==> e.burn_share(amount) == amount / 100,
        e.burn_percentage == 1 && amount <= u64::MAX ==> (e.transfer(amount) is Err
            <==> e.total_supply < amount / 100),
{
    let pct: nat = e.burn_percentage;
    if pct <= 100 {
        assert(amount * pct <= amount * 100) by (nonlinear_arith)
            requires
                pct <= 100,
        ;
    }
    if pct == 1 {
        assert(amount * pct == amount) by (nonlinear_arith)
            requires
                pct == 1,
        ;
    }
}

impl NdtState {
    /// The stored record is known by its view.
    pub proof fn lemma_view_injective(a: NdtState, b: NdtState)
        ensures
            a@ == b@ <==> a == b,
    {
        Identity::lemma_view_injective(a.authority, b.authority);
    }
}

/// Creates the economy at `now`, with `authority` as the one who may mint and
/// force a halving: nothing in supply, and the initial parameters.
pub fn initialize(authority: Identity, now: i64) -> (state: NdtState)
    ensures
        state@ == Economy::genesis(authority@, now as int),
        state@.wf(),
{
    NdtState {
        authority,
        total_supply: 0,
        burn_percentage: INITIAL_BURN_PERCENTAGE,
        staking_apr: INITIAL_STAKING_APR,
        max_supply: MAX_SUPPLY,
        halving_interval: INITIAL_HALVING_INTERVAL,
        last_halving: now,
        emission_rate: INITIAL_EMISSION_RATE,
    }
}

/// Adds `amount` to the supply at the request of `caller`.
///
/// Fails with `Unauthorized` where `caller` is not the authority, and
/// otherwise with `MaxSupplyExceeded` where the supply would pass the cap. On
/// success the caller credits `amount` to the destination.
pub fn mint(state: &mut NdtState, caller: &Identity, amount: u64) -> (r: Result<(), ErrorCode>)
    ensures
        match r {
            Ok(()) => old(state)@.mint(caller@, amount as nat) == Ok::<Economy, ErrorCode>(
                final(state)@,
            ),
            Err(e) => old(state)@.mint(caller@, amount as nat) == Err::<Economy, ErrorCode>(e)
                && *final(state) == *old(state),
        },
        caller@ == old(state)@.authority && amount > old(state).max_supply - old(state).total_supply
            ==> r == Err::<(), ErrorCode>(ErrorCode::MaxSupplyExceeded)
            && final(state).total_supply == old(state).total_supply,
        old(state)@.within_cap() ==> final(state)@.within_cap(),
        old(state)@.wf() ==> final(state)@.wf(),
{
    if !(*caller == state.authority) {
        return Err(ErrorCode::Unauthorized);
    }
    if state.total_supply > state.max_supply || amount > state.max_supply - state.total_supply {
        return Err(ErrorCode::MaxSupplyExceeded);
    }
    state.total_supply = state.total_supply + amount;
    Ok(())
}

/// Splits a transfer of `amount` from `from` to `to` into the part that
/// arrives and the part that is burnt, and takes the burnt part out of the
/// supply.
///
/// The burnt part is `amount` times the burn percentage over a hundred,
/// rounded down. Fails with `ArithmeticOverflow` where that product leaves
/// `u64`, or where more would be burnt than is transferred or than exists.
/// On success the caller moves `amount` of the event to the recipient and
/// destroys its `burn_amount`.
pub fn transfer(state: &mut NdtState, from: Identity, to: Identity, amount: u64, now: i64) -> (r:
    Result<TransferEvent, ErrorCode>)
    ensures
        match r {
            Ok(event) => {
                &&& old(state)@.transfer(amount as nat) == Ok::<Economy, ErrorCode>(final(state)@)
                &&& event.from == from
                &&& event.to == to
                &&& event.burn_amount == old(state)@.burn_share(amount as nat)
                &&& event.amount + event.burn_amount == amount
                &&& old(state).burn_percentage == 1 ==> event.burn_amount == amount / 100
                &&& event.timestamp == now
            },
            Err(e) => old(state)@.transfer(amount as nat) == Err::<Economy, ErrorCode>(e)
                && *final(state) == *old(state),
        },
        old(state)@.within_cap() ==> final(state)@.within_cap(),
        old(state)@.wf() ==> final(state)@.wf(),
{
    let burn_amount: u64 = match amount.checked_mul(state.burn_percentage) {
        Some(product) => product / 100,
        None => { return Err(ErrorCode::ArithmeticOverflow); },
    };
    let transfer_amount: u64 = match amount.checked_sub(burn_amount) {
        Some(rest) => rest,
        None => { return Err(ErrorCode::ArithmeticOverflow); },
    };
    let supply: u64 = match state.total_supply.checked_sub(burn_amount) {
        Some(rest) => rest,
        None => { return Err(ErrorCode::ArithmeticOverflow); },
    };
    state.total_supply = supply;
    Ok(TransferEvent { from, to, amount: transfer_amount, burn_amount, timestamp: now })
}

} // verus!
