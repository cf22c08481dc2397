use ndt::{
    apply_halving, check_and_apply_halving, initialize, ErrorCode, HalvingAppliedEvent, Identity,
    NdtState,
};

const DAY: i64 = 86_400;
const T0: i64 = 1_700_000_000;

fn authority() -> Identity {
    Identity::new([7u8; 32])
}

fn stranger() -> Identity {
    Identity::new([9u8; 32])
}

#[test]
fn halving_is_not_due_one_second_early() {
    let mut state: NdtState = initialize(authority(), T0);
    let before: NdtState = state;
    assert!(!check_and_apply_halving(&mut state, T0));
    assert!(!check_and_apply_halving(&mut state, T0 + 180 * DAY - 1));
    assert_eq!(state, before);
}

#[test]
fn halving_is_due_when_the_interval_has_passed() {
    let mut state: NdtState = initialize(authority(), T0);
    assert!(check_and_apply_halving(&mut state, T0 + 180 * DAY));
    assert_eq!(state.emission_rate, 5);
    assert_eq!(state.last_halving, T0 + 180 * DAY);
    let mut expected: NdtState = initialize(authority(), T0);
    expected.emission_rate = 5;
    expected.last_halving = T0 + 180 * DAY;
    assert_eq!(state, expected);
}

#[test]
fn halving_with_another_interval_and_start() {
    let intervals: [i64; 4] = [1, 60, 30 * DAY, 1000 * DAY];
    for interval in intervals {
        let mut state: NdtState = initialize(authority(), -5_000);
        state.halving_interval = interval;
        let before: NdtState = state;
        assert!(!check_and_apply_halving(&mut state, -5_000 + interval - 1));
        assert_eq!(state, before);
        assert!(check_and_apply_halving(&mut state, -5_000 + interval));
        assert_eq!(state.emission_rate, 5);
        assert_eq!(state.last_halving, -5_000 + interval);
    }
}

#[test]
fn halving_happens_once_however_late_it_comes() {
    let mut state: NdtState = initialize(authority(), T0);
    assert!(check_and_apply_halving(&mut state, T0 + 1000 * DAY));
    assert_eq!(state.emission_rate, 5);
    assert_eq!(state.last_halving, T0 + 1000 * DAY);
    assert!(!check_and_apply_halving(&mut state, T0 + 1000 * DAY));
    assert_eq!(state.emission_rate, 5);
}

#[test]
fn repeated_halvings_stop_at_one() {
    let mut state: NdtState = initialize(authority(), T0);
    let expected: [u64; 7] = [5, 2, 1, 1, 1, 1, 1];
    let mut now: i64 = T0;
    for rate in expected {
        now += 180 * DAY;
        assert!(check_and_apply_halving(&mut state, now));
        assert_eq!(state.emission_rate, rate);
        assert_eq!(state.last_halving, now);
    }
}

#[test]
fn halving_lifts_a_rate_of_zero_to_one() {
    let mut state: NdtState = initialize(authority(), T0);
    state.emission_rate = 0;
    assert!(check_and_apply_halving(&mut state, T0 + 180 * DAY));
    assert_eq!(state.emission_rate, 1);
}

#[test]
fn halving_compares_times_without_wrapping() {
    let mut state: NdtState = initialize(authority(), i64::MIN);
    state.halving_interval = i64::MAX;
    let before: NdtState = state;
    assert!(!check_and_apply_halving(&mut state, -2));
    assert_eq!(state, before);
    assert!(check_and_apply_halving(&mut state, -1));
    assert_eq!(state.emission_rate, 5);
    assert_eq!(state.last_halving, -1);

    let mut state: NdtState = initialize(authority(), i64::MAX);
    state.halving_interval = -1;
    assert!(!check_and_apply_halving(&mut state, i64::MIN));
    assert!(check_and_apply_halving(&mut state, i64::MAX - 1));
    assert_eq!(state.last_halving, i64::MAX - 1);
}

#[test]
fn apply_halving_by_the_authority_when_due() {
    let mut state: NdtState = initialize(authority(), T0);
    assert_eq!(
        apply_halving(&mut state, &authority(), T0 + 180 * DAY),
        Ok(HalvingAppliedEvent {
            new_emission_rate: 5,
            timestamp: T0 + 180 * DAY,
        })
    );
    assert_eq!(state.emission_rate, 5);
    assert_eq!(state.last_halving, T0 + 180 * DAY);
    assert_eq!(state.total_supply, 0);
}

#[test]
fn apply_halving_before_it_is_due_fails() {
    let mut state: NdtState = initialize(authority(), T0);
    let before: NdtState = state;
    assert_eq!(
        apply_halving(&mut state, &authority(), T0 + 180 * DAY - 1),
        Err(ErrorCode::HalvingNotDue)
    );
    assert_eq!(state, before);
}

#[test]
fn apply_halving_by_anyone_else_is_unauthorized() {
    let mut state: NdtState = initialize(authority(), T0);
    let before: NdtState = state;
    assert_eq!(
        apply_halving(&mut state, &stranger(), T0 + 180 * DAY),
        Err(ErrorCode::Unauthorized)
    );
    assert_eq!(state, before);
    assert_eq!(
        apply_halving(&mut state, &stranger(), T0),
        Err(ErrorCode::Unauthorized)
    );
    assert_eq!(state, before);
}
