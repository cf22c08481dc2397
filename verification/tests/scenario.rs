use ndt::{
    claim_rewards, initialize, mint, stake, transfer, unstake, ClaimRewardsEvent, ErrorCode,
    Identity, NdtState, StakeEvent, StakingAccount, TransferEvent,
};

const DAY: i64 = 86_400;
const T0: i64 = 1_700_000_000;

#[test]
fn a_year_of_staking_from_start_to_claim() {
    let authority: Identity = Identity::new([7u8; 32]);
    let staker: Identity = Identity::new([3u8; 32]);

    let mut state: NdtState = initialize(authority, T0);
    assert_eq!(mint(&mut state, &authority, 1000), Ok(()));
    assert_eq!(state.total_supply, 1000);

    let mut position: StakingAccount = StakingAccount::new(staker);
    let selector: u64 = position.total_staked;
    let staked: StakeEvent =
        stake(&state, &mut position, staker, 1000, 90 * 86_400, selector, T0).unwrap();
    assert_eq!(staked.apr, 6);
    assert_eq!(position.apr, 6);
    assert_eq!(position.amount, 1000);

    let now: i64 = T0 + 365 * DAY;
    let claimed: ClaimRewardsEvent =
        claim_rewards(&mut state, &mut position, staker, now).unwrap();
    // One halving, though two intervals have passed: the rate goes from 10 to 5.
    assert_eq!(state.emission_rate, 5);
    assert_eq!(state.last_halving, now);
    // 1000 * 6 * 1 year / 1 year == 6000, / 100 == 60, * 5 == 300, / 10 == 30.
    assert_eq!(claimed.rewards, 30);
    assert_eq!(claimed.staker, staker);
    assert_eq!(claimed.timestamp, now);
    assert_eq!(state.total_supply, 1030);
    assert_eq!(position.last_claim_time, now);

    assert_eq!(
        claim_rewards(&mut state, &mut position, staker, now),
        Err(ErrorCode::NoRewardsToClaim)
    );

    assert!(unstake(&mut position, staker, 1000, now).is_ok());
    assert_eq!(position.amount, 0);

    let moved: TransferEvent =
        transfer(&mut state, staker, authority, 1030, now).unwrap();
    assert_eq!(moved.amount, 1020);
    assert_eq!(moved.burn_amount, 10);
    assert_eq!(state.total_supply, 1020);
}
