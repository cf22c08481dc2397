//! Staking: a position per staker, locked for a chosen time, that earns at a
//! rate fixed when the stake is made.
//!
//! `StakingAccount` is the record as it is stored; `Position` is the same
//! record in unbounded integers, and every operation is stated as a function
//! on it.

use vstd::prelude::*;
use crate::economy::{Economy, NdtState};
use crate::errors::ErrorCode;
use crate::events::{ClaimRewardsEvent, StakeEvent, UnstakeEvent};
use crate::halving::check_and_apply_halving;
use crate::identity::Identity;
use crate::multipliers::{effective_apr, staking_apr};
use crate::rewards::{
    compute_rewards, lemma_no_time_no_reward, reward_amount, reward_overflows,
};

verus! {

/// The staking record of one staker.
#[derive(Clone, Copy, Debug, PartialEq, Eq)]
pub struct StakingAccount {
    /// Who owns the position.
    pub staker: Identity,
    /// How much is staked.
    pub amount: u64,
    /// The seconds for which the stake is locked, as chosen at the last stake.
    pub lock_period: u64,
    /// When the stake that set the current lock was made.
    pub stake_time: i64,
    /// When rewards were last paid, or the stake was made.
    pub last_claim_time: i64,
    /// The rate at which the position earns, in percent a year.
    pub apr: u64,
    /// A running counter of what the staker has staked.
    pub total_staked: u64,
}

/// A staking position in unbounded integers.
pub struct Position {
    pub staker: Seq<u8>,
    pub amount: nat,
    pub lock_period: nat,
    pub stake_time: int,
    pub last_claim_time: int,
    pub apr: nat,
    pub total_staked: nat,
}

impl View for StakingAccount {
    type V = Position;

    open spec fn view(&self) -> Position {
        Position {
            staker: self.staker@,
            amount: self.amount as nat,
            lock_period: self.lock_period as nat,
            stake_time: self.stake_time as int,
            last_claim_time: self.last_claim_time as int,
            apr: self.apr as nat,
            total_staked: self.total_staked as nat,
        }
    }
}

impl Position {
    /// The position of `staker` before anything was staked.
    pub open spec fn empty(staker: Seq<u8>) -> Position {
        Position {
            staker,
            amount: 0,
            lock_period: 0,
            stake_time: 0,
            last_claim_time: 0,
            apr: 0,
            total_staked: 0,
        }
    }

    /// Rewards were last paid no earlier than the stake was made.
    pub open spec fn wf(self) -> bool {
        self.stake_time <= self.last_claim_time
    }

    /// Staking `amount` more at `now`, locked for `lock_period`: the lock, the
    /// rate and both times are set anew. Refused where the staked amount or
    /// the rate leaves `u64`.
    pub open spec fn stake(
        self,
        base_apr: nat,
        amount: nat,
        lock_period: nat,
        tier_selector: nat,
        now: int,
    ) -> Result<Position, ErrorCode> {
        match staking_apr(base_apr, tier_selector, lock_period) {
            Some(apr) => if self.amount + amount > u64::MAX {
                Err(ErrorCode::ArithmeticOverflow)
            } else {
                Ok(
                    Position {
                        amount: self.amount + amount,
                        lock_period,
                        stake_time: now,
                        last_claim_time: now,
                        apr,
                        ..self
                    },
                )
            },
            None => Err(ErrorCode::ArithmeticOverflow),
        }
    }

    /// The first moment at which the stake may be taken back.
    pub open spec fn unlock_time(self) -> int {
        self.stake_time + self.lock_period
    }

    /// Taking `amount` back at `now`: refused where the position holds less,
    /// and otherwise refused while the stake is locked.
    pub open spec fn unstake(self, amount: nat, now: int) -> Result<Position, ErrorCode> {
        if amount > self.amount {
            Err(ErrorCode::InsufficientFunds)
        } else if now < self.unlock_time() {
            Err(ErrorCode::LockPeriodNotExpired)
        } else {
            Ok(Position { amount: (self.amount - amount) as nat, ..self })
        }
    }

    /// This position with its rewards paid at `now`.
    pub open spec fn paid(self, now: int) -> Position {
        Position { last_claim_time: now, ..self }
    }
}

/// What position `p` has earned at `now`, at the emission rate that holds
/// once the schedule was consulted.
pub open spec fn claimable(e: Economy, p: Position, now: int) -> nat {
    reward_amount(
        p.amount,
        p.apr,
        (now - p.last_claim_time) as nat,
        e.check_halving(now).emission_rate,
    )
}

/// Whether the reward of `p` at `now` cannot be computed: the time since the
/// last claim is negative or leaves `i64`, or a product leaves `u64`.
pub open spec fn claim_overflows(e: Economy, p: Position, now: int) -> bool {
    let elapsed: int = now - p.last_claim_time;
    ||| elapsed < 0
    ||| elapsed > i64::MAX
    ||| reward_overflows(p.amount, p.apr, elapsed as nat, e.check_halving(now).emission_rate)
}

/// Claiming the rewards of `p` at `now`: the schedule is consulted first, the
/// reward is issued into the supply, and the position is marked as paid.
/// Refused where the reward cannot be computed, where it is nothing, and
/// where the supply would pass the cap.
pub open spec fn claim(e: Economy, p: Position, now: int) -> Result<(Economy, Position), ErrorCode> {
    let next: Economy = e.check_halving(now);
    let rewards: nat = claimable(e, p, now);
    if claim_overflows(e, p, now) {
        Err(ErrorCode::ArithmeticOverflow)
    } else if rewards == 0 {
        Err(ErrorCode::NoRewardsToClaim)
    } else if next.total_supply + rewards > next.max_supply {
        Err(ErrorCode::MaxSupplyExceeded)
    } else {
        Ok((next.issue(rewards), p.paid(now)))
    }
}

impl StakingAccount {
    /// The position of `staker` before anything was staked.
    pub fn new(staker: Identity) -> (position: StakingAccount)
        ensures
            position@ == Position::empty(staker@),
            position@.wf(),
    {
        StakingAccount {
            staker,
            amount: 0,
            lock_period: 0,
            stake_time: 0,
            last_claim_time: 0,
            apr: 0,
            total_staked: 0,
        }
    }

    /// The stored record is known by its view.
    pub proof fn lemma_view_injective(a: StakingAccount, b: StakingAccount)
        ensures
            a@ == b@ <==> a == b,
    {
        Identity::lemma_view_injective(a.staker, b.staker);
    }
}

/// Adds `amount` to the position at `now` and locks it for `lock_period`
/// seconds.
///
/// The lock, the time of the stake and the time of the last claim are set
/// anew, and so is the rate: the base rate of the economy under the tier
/// multiplier of `tier_selector` and the time multiplier of `lock_period`.
/// Which quantity selects the tier is the caller's choice; the running counter
/// `total_staked` of the position is one, and no operation here changes it.
/// Fails with `ArithmeticOverflow` where the staked amount or the rate leaves
/// `u64`. On success the caller moves `amount` from the staker into the pool.
pub fn stake(
    state: &NdtState,
    position: &mut StakingAccount,
    staker: Identity,
    amount: u64,
    lock_period: u64,
    tier_selector: u64,
    now: i64,
) -> (r: Result<StakeEvent, ErrorCode>)
    ensures
        match r {
            Ok(event) => {
                &&& old(position)@.stake(
                    state@.staking_apr,
                    amount as nat,
                    lock_period as nat,
                    tier_selector as nat,
                    now as int,
                ) == Ok::<Position, ErrorCode>(final(position)@)
                &&& event.staker == staker
                &&& event.amount == amount
                &&& event.lock_period == lock_period
                &&& event.apr == final(position).apr
                &&& event.timestamp == now
            },
            Err(e) => old(position)@.stake(
                state@.staking_apr,
                amount as nat,
                lock_period as nat,
                tier_selector as nat,
                now as int,
            ) == Err::<Position, ErrorCode>(e) && *final(position) == *old(position),
        },
        old(position)@.wf() ==> final(position)@.wf(),
{
    let staked: u64 = match position.amount.checked_add(amount) {
        Some(sum) => sum,
        None => { return Err(ErrorCode::ArithmeticOverflow); },
    };
    let apr: u64 = match effective_apr(state.staking_apr, tier_selector, lock_period) {
        Ok(apr) => apr,
        Err(e) => { return Err(e); },
    };
    position.amount = staked;
    position.lock_period = lock_period;
    position.stake_time = now;
    position.apr = apr;
    position.last_claim_time = now;
    Ok(StakeEvent { staker, amount, lock_period, apr, timestamp: now })
}

/// Takes `amount` out of the position at `now`.
///
/// Fails with `InsufficientFunds` where the position holds less than
/// `amount`, whether or not the stake is locked; and otherwise with
/// `LockPeriodNotExpired` where `now` is before the time of the stake plus
/// its lock period, however small `amount` is. On success the caller moves
/// `amount` from the pool back to the staker.
pub fn unstake(position: &mut StakingAccount, staker: Identity, amount: u64, now: i64) -> (r:
    Result<UnstakeEvent, ErrorCode>)
    ensures
        match r {
            Ok(event) => {
                &&& old(position)@.unstake(amount as nat, now as int) == Ok::<Position, ErrorCode>(
                    final(position)@,
                )
                &&& event.staker == staker
                &&& event.amount == amount
                &&& event.timestamp == now
            },
            Err(e) => old(position)@.unstake(amount as nat, now as int) == Err::<
                Position,
                ErrorCode,
            >(e) && *final(position) == *old(position),
        },
        amount > old(position).amount ==> r == Err::<UnstakeEvent, ErrorCode>(
            ErrorCode::InsufficientFunds,
        ),
        amount <= old(position).amount && now < old(position).stake_time + old(position).lock_period
            ==> r == Err::<UnstakeEvent, ErrorCode>(ErrorCode::LockPeriodNotExpired),
        old(position)@.wf() ==> final(position)@.wf(),
{
    if position.amount < amount {
        return Err(ErrorCode::InsufficientFunds);
    }
    let unlock_time: i128 = position.stake_time as i128 + position.lock_period as i128;
    if (now as i128) < unlock_time {
        return Err(ErrorCode::LockPeriodNotExpired);
    }
    position.amount = position.amount - amount;
    Ok(UnstakeEvent { staker, amount, timestamp: now })
}

/// Pays the position what it has earned since its last claim.
///
/// The halving schedule is consulted first, so the reward is scaled by the
/// emission rate that holds at `now`. Fails with `ArithmeticOverflow` where
/// `now` is before the last claim, or the time since, or a product of the
/// reward, does not fit its integer; otherwise with `NoRewardsToClaim` where
/// the reward is nothing; otherwise with `MaxSupplyExceeded` where the supply
/// would pass the cap. A failed claim changes neither record, the schedule
/// included. On success the caller credits `rewards` of the event to the
/// staker.
pub fn claim_rewards(
    state: &mut NdtState,
    position: &mut StakingAccount,
    staker: Identity,
    now: i64,
) -> (r: Result<ClaimRewardsEvent, ErrorCode>)
    ensures
        match r {
            Ok(event) => {
                &&& claim(old(state)@, old(position)@, now as int) == Ok::<
                    (Economy, Position),
                    ErrorCode,
                >((final(state)@, final(position)@))
                &&& event.staker == staker
                &&& event.rewards == claimable(old(state)@, old(position)@, now as int)
                &&& event.rewards > 0
                &&& event.timestamp == now
            },
            Err(e) => claim(old(state)@, old(position)@, now as int) == Err::<
                (Economy, Position),
                ErrorCode,
            >(e) && *final(state) == *old(state) && *final(position) == *old(position),
        },
        now == old(position).last_claim_time && old(position).amount * old(position).apr
            <= u64::MAX ==> r == Err::<ClaimRewardsEvent, ErrorCode>(ErrorCode::NoRewardsToClaim),
        old(state)@.within_cap() ==> final(state)@.within_cap(),
        old(state)@.wf() ==> final(state)@.wf(),
        old(position)@.wf() ==> final(position)@.wf(),
{
    let elapsed: u64 = match now.checked_sub(position.last_claim_time) {
        Some(seconds) => {
            if seconds < 0 {
                return Err(ErrorCode::ArithmeticOverflow);
            }
            seconds as u64
        },
        None => { return Err(ErrorCode::ArithmeticOverflow); },
    };
    let mut next: NdtState = *state;
    check_and_apply_halving(&mut next, now);
    proof {
        if elapsed == 0 {
            lemma_no_time_no_reward(
                position.amount as nat,
                position.apr as nat,
                next.emission_rate as nat,
            );
        }
    }
    let rewards: u64 = match compute_rewards(
        position.amount,
        position.apr,
        elapsed,
        next.emission_rate,
    ) {
        Ok(rewards) => rewards,
        Err(e) => { return Err(e); },
    };
    if rewards == 0 {
        return Err(ErrorCode::NoRewardsToClaim);
    }
    if next.total_supply > next.max_supply || rewards > next.max_supply - next.total_supply {
        return Err(ErrorCode::MaxSupplyExceeded);
    }
    next.total_supply = next.total_supply + rewards;
    *state = next;
    position.last_claim_time = now;
    Ok(ClaimRewardsEvent { staker, rewards, timestamp: now })
}

/// A claim made again at the very moment of a successful claim is refused:
/// over no time nothing has been earned.
pub proof fn lemma_second_claim_is_refused(e: Economy, p: Position, now: int)
    requires
        claim(e, p, now) is Ok,
    ensures
        claimable(claim(e, p, now)->Ok_0.0, claim(e, p, now)->Ok_0.1, now) == 0,
        claim(claim(e, p, now)->Ok_0.0, claim(e, p, now)->Ok_0.1, now) == Err::<
            (Economy, Position),
            ErrorCode,
        >(ErrorCode::NoRewardsToClaim),
{
    let (after, paid) = claim(e, p, now)->Ok_0;
    lemma_no_time_no_reward(paid.amount, paid.apr, after.check_halving(now).emission_rate);
}

/// A halving that comes due is the same halving whether the authority forces
/// it or a claim brings it about: at one and the same moment both leave the
/// same emission rate and the same time of the last halving, and the claim
/// differs from the forced halving by the reward it issues and by nothing
/// else.
pub proof fn lemma_halving_paths_agree(e: Economy, p: Position, caller: Seq<u8>, now: int)
    requires
        e.apply_halving(caller, now) is Ok,
        claim(e, p, now) is Ok,
    ensures
        claim(e, p, now)->Ok_0.0.emission_rate == e.apply_halving(caller, now)->Ok_0.emission_rate,
        claim(e, p, now)->Ok_0.0.last_halving == e.apply_halving(caller, now)->Ok_0.last_halving,
        claim(e, p, now)->Ok_0.0 == e.apply_halving(caller, now)->Ok_0.issue(
            claimable(e, p, now),
        ),
{
}

} // verus!
