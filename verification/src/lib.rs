//! A token economy as a verified state machine: a capped supply, a burn on
//! every transfer, tiered and time-locked staking, and an emission rate that
//! halves on a schedule.
//!
//! Every operation takes the records it works on and the current time as plain
//! values, and either commits all of its changes or none. Custody itself is
//! moved by the caller, with the amounts that the operation returns.

pub mod economy;
pub mod errors;
pub mod events;
pub mod halving;
pub mod history;
pub mod identity;
pub mod multipliers;
pub mod rewards;
pub mod staking;

pub use economy::{initialize, mint, transfer, Economy, NdtState};
pub use errors::ErrorCode;
pub use events::{
    ClaimRewardsEvent, HalvingAppliedEvent, StakeEvent, TransferEvent, UnstakeEvent,
};
pub use halving::{apply_halving, check_and_apply_halving};
pub use identity::Identity;
pub use rewards::compute_rewards;
pub use staking::{claim_rewards, stake, unstake, Position, StakingAccount};
pub use multipliers::{effective_apr, get_tier_multiplier, get_time_multiplier};
