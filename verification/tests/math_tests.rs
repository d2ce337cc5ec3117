use meteor_route_fee_router::error::FeeRouterError;
use meteor_route_fee_router::math::{DistributionMath, BPS_DENOMINATOR};
use meteor_route_fee_router::state::SECONDS_PER_DAY;

#[test]
fn constants_have_their_values() {
    assert_eq!(BPS_DENOMINATOR, 10_000);
    assert_eq!(SECONDS_PER_DAY, 86_400);
}

#[test]
fn eligible_bps_is_floored() {
    assert_eq!(DistributionMath::calculate_eligible_bps(1, 3, 10_000), Ok(3_333));
    assert_eq!(DistributionMath::calculate_eligible_bps(2, 3, 10_000), Ok(6_666));
    assert_eq!(DistributionMath::calculate_eligible_bps(1, 10_001, 10_000), Ok(0));
    assert_eq!(DistributionMath::calculate_eligible_bps(9_999, 10_000, 10_000), Ok(9_999));
}

#[test]
fn eligible_bps_is_at_most_the_share() {
    assert_eq!(DistributionMath::calculate_eligible_bps(1000, 1000, 9000), Ok(9000));
    assert_eq!(DistributionMath::calculate_eligible_bps(1000, 1000, 0), Ok(0));
    assert_eq!(DistributionMath::calculate_eligible_bps(500, 1000, u16::MAX), Ok(5000));
}

#[test]
fn eligible_bps_needs_an_allocation() {
    assert_eq!(
        DistributionMath::calculate_eligible_bps(0, 0, 9000),
        Err(FeeRouterError::InvalidY0)
    );
    assert_eq!(
        DistributionMath::calculate_eligible_bps(5, 0, 9000),
        Err(FeeRouterError::InvalidY0)
    );
}

#[test]
fn eligible_bps_refuses_locked_above_allocation() {
    assert_eq!(
        DistributionMath::calculate_eligible_bps(1001, 1000, 9000),
        Err(FeeRouterError::LockedExceedsAllocation)
    );
}

#[test]
fn eligible_bps_reports_overflow() {
    let big = u128::MAX / 10_000 + 1;
    assert_eq!(
        DistributionMath::calculate_eligible_bps(big, u128::MAX, 9000),
        Err(FeeRouterError::Overflow)
    );
    assert_eq!(
        DistributionMath::calculate_eligible_bps(big - 1, big - 1, 9000),
        Ok(9000)
    );
}

#[test]
fn investor_fee_quote_is_floored() {
    assert_eq!(DistributionMath::calculate_investor_fee_quote(1_000_000, 9000), Ok(900_000));
    assert_eq!(DistributionMath::calculate_investor_fee_quote(3, 3_333), Ok(0));
    assert_eq!(DistributionMath::calculate_investor_fee_quote(10_001, 9_999), Ok(9_999));
    assert_eq!(DistributionMath::calculate_investor_fee_quote(0, 10_000), Ok(0));
    assert_eq!(DistributionMath::calculate_investor_fee_quote(77, 0), Ok(0));
    assert_eq!(
        DistributionMath::calculate_investor_fee_quote(u64::MAX as u128, 10_000),
        Ok(u64::MAX as u128)
    );
}

#[test]
fn investor_fee_quote_reports_overflow() {
    assert_eq!(
        DistributionMath::calculate_investor_fee_quote(u128::MAX, 2),
        Err(FeeRouterError::Overflow)
    );
    assert_eq!(
        DistributionMath::calculate_investor_fee_quote(u128::MAX, 1),
        Ok(u128::MAX / 10_000)
    );
}

#[test]
fn daily_cap_of_zero_is_no_cap() {
    assert_eq!(DistributionMath::apply_daily_cap(900_000, 0, 0), 900_000);
    assert_eq!(DistributionMath::apply_daily_cap(u128::MAX, 0, u128::MAX), u128::MAX);
}

#[test]
fn daily_cap_counts_what_was_distributed() {
    assert_eq!(DistributionMath::apply_daily_cap(900_000, 800_000, 300_000), 500_000);
    assert_eq!(DistributionMath::apply_daily_cap(100, 800_000, 300_000), 100);
    assert_eq!(DistributionMath::apply_daily_cap(900_000, 800_000, 800_000), 0);
}

#[test]
fn daily_cap_saturates_at_zero() {
    assert_eq!(DistributionMath::apply_daily_cap(900_000, 800_000, 800_001), 0);
    assert_eq!(DistributionMath::apply_daily_cap(900_000, 1, u128::MAX), 0);
}

#[test]
fn payout_is_zero_when_nothing_is_locked() {
    assert_eq!(DistributionMath::calculate_investor_payout(60, 0, 900_000), Ok(0));
    assert_eq!(DistributionMath::calculate_investor_payout(u128::MAX, 0, u128::MAX), Ok(0));
}

#[test]
fn payout_is_floored() {
    assert_eq!(DistributionMath::calculate_investor_payout(1, 3, 100), Ok(33));
    assert_eq!(DistributionMath::calculate_investor_payout(2, 3, 100), Ok(66));
    assert_eq!(DistributionMath::calculate_investor_payout(0, 3, 100), Ok(0));
    assert_eq!(DistributionMath::calculate_investor_payout(3, 3, 100), Ok(100));
}

#[test]
fn payout_holds_the_product_of_two_64_bit_amounts() {
    let max = u64::MAX as u128;
    assert_eq!(DistributionMath::calculate_investor_payout(max, max, max), Ok(max));
    assert_eq!(DistributionMath::calculate_investor_payout(max + 2, 1, max), Ok(u128::MAX));
    assert_eq!(
        DistributionMath::calculate_investor_payout(max + 2, 1, max + 1),
        Err(FeeRouterError::Overflow)
    );
}

#[test]
fn payouts_sum_to_at_most_the_pool() {
    let locked = [7u128, 11, 13, 17, 19];
    let total: u128 = locked.iter().sum();
    let pool = 1_000_003u128;
    let mut sum = 0u128;
    for l in locked {
        sum += DistributionMath::calculate_investor_payout(l, total, pool).unwrap();
    }
    assert!(sum <= pool);
    assert!(pool - sum < locked.len() as u128);
}
