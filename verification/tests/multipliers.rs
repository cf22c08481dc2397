use ndt::{compute_rewards, effective_apr, get_tier_multiplier, get_time_multiplier, ErrorCode};

const DAY: u64 = 86_400;

#[test]
fn tier_multiplier_steps_at_its_thresholds() {
    assert_eq!(get_tier_multiplier(0), 100);
    assert_eq!(get_tier_multiplier(499_999), 100);
    assert_eq!(get_tier_multiplier(500_000), 120);
    assert_eq!(get_tier_multiplier(500_001), 120);
    assert_eq!(get_tier_multiplier(4_999_999), 120);
    assert_eq!(get_tier_multiplier(5_000_000), 150);
    assert_eq!(get_tier_multiplier(49_999_999), 150);
    assert_eq!(get_tier_multiplier(50_000_000), 200);
    assert_eq!(get_tier_multiplier(u64::MAX), 200);
}

#[test]
fn time_multiplier_steps_at_its_thresholds() {
    assert_eq!(get_time_multiplier(0), 100);
    assert_eq!(get_time_multiplier(89 * DAY), 100);
    assert_eq!(get_time_multiplier(90 * DAY - 1), 100);
    assert_eq!(get_time_multiplier(90 * DAY), 120);
    assert_eq!(get_time_multiplier(180 * DAY - 1), 120);
    assert_eq!(get_time_multiplier(180 * DAY), 150);
    assert_eq!(get_time_multiplier(365 * DAY - 1), 150);
    assert_eq!(get_time_multiplier(365 * DAY), 200);
    assert_eq!(get_time_multiplier(u64::MAX), 200);
}

#[test]
fn effective_apr_applies_tier_then_time() {
    assert_eq!(effective_apr(5, 0, 0), Ok(5));
    assert_eq!(effective_apr(5, 0, 90 * DAY), Ok(6));
    assert_eq!(effective_apr(5, 500_000, 90 * DAY), Ok(7));
    assert_eq!(effective_apr(5, 5_000_000, 180 * DAY), Ok(10));
    assert_eq!(effective_apr(5, 50_000_000, 365 * DAY), Ok(20));
    assert_eq!(effective_apr(0, 50_000_000, 365 * DAY), Ok(0));
}

#[test]
fn effective_apr_drops_the_fraction_after_each_step() {
    // 1 * 150 / 100 == 1, then 1 * 200 / 100 == 2; in one step it would be 3.
    assert_eq!(effective_apr(1, 5_000_000, 365 * DAY), Ok(2));
    // 3 * 120 / 100 == 3, then 3 * 150 / 100 == 4; in one step it would be 5.
    assert_eq!(effective_apr(3, 500_000, 180 * DAY), Ok(4));
}

#[test]
fn effective_apr_overflows_when_a_product_leaves_u64() {
    assert_eq!(
        effective_apr(u64::MAX, 0, 0),
        Err(ErrorCode::ArithmeticOverflow)
    );
    assert_eq!(
        effective_apr(u64::MAX / 100 + 1, 0, 0),
        Err(ErrorCode::ArithmeticOverflow)
    );
    assert_eq!(effective_apr(u64::MAX / 100, 0, 0), Ok(u64::MAX / 100));
    // The first product fits, the second does not.
    assert_eq!(
        effective_apr(u64::MAX / 150, 0, 365 * DAY),
        Err(ErrorCode::ArithmeticOverflow)
    );
}

#[test]
fn rewards_follow_the_formula() {
    // A year at 6 percent on 1000, at the full emission rate and at half of it.
    assert_eq!(compute_rewards(1000, 6, 365 * DAY, 10), Ok(60));
    assert_eq!(compute_rewards(1000, 6, 365 * DAY, 5), Ok(30));
    assert_eq!(compute_rewards(1000, 6, 365 * DAY, 1), Ok(6));
    // Half a year, rounded down at each division.
    assert_eq!(compute_rewards(1000, 5, 182 * DAY, 10), Ok(24));
    assert_eq!(compute_rewards(1000, 5, 182 * DAY, 5), Ok(12));
    // 999 * 7 * (100 days) / year == 1915, / 100 == 19, * 3 == 57, / 10 == 5.
    assert_eq!(compute_rewards(999, 7, 100 * DAY, 3), Ok(5));
    assert_eq!(compute_rewards(1000, 6, 0, 10), Ok(0));
    assert_eq!(compute_rewards(0, 6, 365 * DAY, 10), Ok(0));
    assert_eq!(compute_rewards(1000, 0, 365 * DAY, 10), Ok(0));
    assert_eq!(compute_rewards(1000, 6, 365 * DAY, 0), Ok(0));
}

#[test]
fn rewards_never_fall_as_time_passes() {
    let mut last: u64 = 0;
    let mut elapsed: u64 = 0;
    while elapsed <= 800 * DAY {
        let rewards: u64 = compute_rewards(123_456, 7, elapsed, 5).unwrap();
        assert!(rewards >= last);
        last = rewards;
        elapsed += 7 * DAY + 13;
    }
    assert!(last > 0);
}

#[test]
fn rewards_overflow_when_a_product_leaves_u64() {
    assert_eq!(
        compute_rewards(u64::MAX, 2, 0, 10),
        Err(ErrorCode::ArithmeticOverflow)
    );
    assert_eq!(
        compute_rewards(u64::MAX / 2, 2, 2, 10),
        Err(ErrorCode::ArithmeticOverflow)
    );
    assert_eq!(
        compute_rewards(u64::MAX / 2, 2, 1, u64::MAX),
        Err(ErrorCode::ArithmeticOverflow)
    );
    assert_eq!(
        compute_rewards(u64::MAX / 2, 2, 1, 10),
        Ok((u64::MAX - 1) / 31_536_000 / 100 * 10 / 10)
    );
}
