use vstd::prelude::*;
use vstd::arithmetic::div_mod::{lemma_div_is_ordered, lemma_div_multiples_vanish, lemma_div_pos_is_pos};
use crate::error::FeeRouterError;

verus! {

/// One hundred percent, in basis points.
pub const BPS_DENOMINATOR: u16 = 10_000;

/// The share of the claimed fees that goes to investors, in basis points:
/// the locked fraction of the total allocation, floored, and at most the
/// configured share.
pub open spec fn eligible_bps(locked_total: int, y0_total_allocation: int, investor_fee_share_bps: int) -> int {
    let locked_bps = 10_000 * locked_total / y0_total_allocation;
    if investor_fee_share_bps <= locked_bps {
        investor_fee_share_bps
    } else {
        locked_bps
    }
}

/// The investors' part of a claim: `claimed_quote * eligible_bps / 10000`, floored.
pub open spec fn investor_fee_quote(claimed_quote: int, eligible_bps: int) -> int {
    claimed_quote * eligible_bps / 10_000
}

/// What is left of the daily cap, never below zero. A cap of zero is no cap.
pub open spec fn remaining_cap(daily_cap: int, cumulative_distributed_today: int) -> int {
    if cumulative_distributed_today >= daily_cap {
        0
    } else {
        daily_cap - cumulative_distributed_today
    }
}

/// The investors' part after the daily cap.
pub open spec fn capped_fee_quote(investor_fee_quote: int, daily_cap: int, cumulative_distributed_today: int) -> int {
    if daily_cap == 0 {
        investor_fee_quote
    } else if investor_fee_quote <= remaining_cap(daily_cap, cumulative_distributed_today) {
        investor_fee_quote
    } else {
        remaining_cap(daily_cap, cumulative_distributed_today)
    }
}

/// One investor's payout: the pool weighted by the investor's part of the
/// locked total, floored. With nothing locked every payout is zero.
pub open spec fn investor_payout(locked_amount: int, locked_total: int, investor_fee_quote: int) -> int {
    if locked_total == 0 {
        0
    } else {
        locked_amount * investor_fee_quote / locked_total
    }
}

/// The result of `DistributionMath::calculate_eligible_bps` on every input.
pub open spec fn eligible_bps_checked(
    locked_total: u128,
    y0_total_allocation: u128,
    investor_fee_share_bps: u16,
) -> Result<u16, FeeRouterError> {
    if y0_total_allocation == 0 {
        Err(FeeRouterError::InvalidY0)
    } else if locked_total > y0_total_allocation {
        Err(FeeRouterError::LockedExceedsAllocation)
    } else if locked_total * 10_000 > u128::MAX {
        Err(FeeRouterError::Overflow)
    } else {
        Ok(eligible_bps(locked_total as int, y0_total_allocation as int, investor_fee_share_bps as int) as u16)
    }
}

/// The result of `DistributionMath::calculate_investor_fee_quote` on every input.
pub open spec fn investor_fee_quote_checked(claimed_quote: u128, eligible_bps: u16) -> Result<u128, FeeRouterError> {
    if claimed_quote * eligible_bps > u128::MAX {
        Err(FeeRouterError::Overflow)
    } else {
        Ok(investor_fee_quote(claimed_quote as int, eligible_bps as int) as u128)
    }
}

/// The result of `DistributionMath::calculate_investor_payout` on every input.
pub open spec fn investor_payout_checked(
    locked_amount: u128,
    locked_total: u128,
    investor_fee_quote: u128,
) -> Result<u128, FeeRouterError> {
    if locked_total != 0 && locked_amount * investor_fee_quote > u128::MAX {
        Err(FeeRouterError::Overflow)
    } else {
        Ok(investor_payout(locked_amount as int, locked_total as int, investor_fee_quote as int) as u128)
    }
}

/// A floored quotient of a product is at most the factor it scales, when
/// the other factor is at most the divisor.
pub proof fn lemma_scaled_share_bounded(part: int, whole: int, amount: int)
    requires
        0 <= part <= whole,
        0 < whole,
        0 <= amount,
    ensures
        0 <= part * amount / whole <= amount,
{
    assert(0 <= part * amount <= whole * amount) by (nonlinear_arith)
        requires
            0 <= part <= whole,
            0 <= amount,
    ;
    lemma_div_is_ordered(part * amount, whole * amount, whole);
    lemma_div_multiples_vanish(amount, whole);
    lemma_div_pos_is_pos(part * amount, whole);
}

/// The arithmetic of a distribution. All of it is exact, floors its
/// quotients and reports overflow.
pub struct DistributionMath;

impl DistributionMath {
    /// The eligible investor share in basis points.
    pub fn calculate_eligible_bps(
        locked_total: u128,
        y0_total_allocation: u128,
        investor_fee_share_bps: u16,
    ) -> (result: Result<u16, FeeRouterError>)
        ensures
            result == eligible_bps_checked(locked_total, y0_total_allocation, investor_fee_share_bps),
            result matches Ok(bps) ==> bps <= investor_fee_share_bps && bps <= 10_000,
    {
        if y0_total_allocation == 0 {
            return Err(FeeRouterError::InvalidY0);
        }
        if locked_total > y0_total_allocation {
            return Err(FeeRouterError::LockedExceedsAllocation);
        }
        let scaled = match locked_total.checked_mul(10_000) {
            Some(scaled) => scaled,
            None => {
                return Err(FeeRouterError::Overflow);
            },
        };
        let locked_bps: u128 = scaled / y0_total_allocation;
        proof {
            lemma_scaled_share_bounded(locked_total as int, y0_total_allocation as int, 10_000);
            assert(locked_total * 10_000 == 10_000 * locked_total);
        }
        if (investor_fee_share_bps as u128) <= locked_bps {
            Ok(investor_fee_share_bps)
        } else {
            Ok(locked_bps as u16)
        }
    }

    /// The investors' part of the claimed quote fees.
    pub fn calculate_investor_fee_quote(claimed_quote: u128, eligible_bps: u16) -> (result: Result<
        u128,
        FeeRouterError,
    >)
        ensures
            result == investor_fee_quote_checked(claimed_quote, eligible_bps),
    {
        match claimed_quote.checked_mul(eligible_bps as u128) {
            Some(product) => Ok(product / 10_000),
            None => Err(FeeRouterError::Overflow),
        }
    }

    /// The investors' part after the daily cap. A cap of zero is no cap.
    pub fn apply_daily_cap(
        investor_fee_quote: u128,
        daily_cap: u64,
        cumulative_distributed_today: u128,
    ) -> (capped: u128)
        ensures
            capped == capped_fee_quote(
                investor_fee_quote as int,
                daily_cap as int,
                cumulative_distributed_today as int,
            ),
            capped <= investor_fee_quote,
            daily_cap > 0 ==> capped + cumulative_distributed_today <= daily_cap
                || (capped == 0 && cumulative_distributed_today > daily_cap),
    {
        if daily_cap == 0 {
            return investor_fee_quote;
        }
        let remaining_cap = (daily_cap as u128).saturating_sub(cumulative_distributed_today);
        if investor_fee_quote <= remaining_cap {
            investor_fee_quote
        } else {
            remaining_cap
        }
    }

    /// One investor's payout from the pool.
    pub fn calculate_investor_payout(
        locked_amount: u128,
        locked_total: u128,
        investor_fee_quote: u128,
    ) -> (result: Result<u128, FeeRouterError>)
        ensures
            result == investor_payout_checked(locked_amount, locked_total, investor_fee_quote),
    {
        if locked_total == 0 {
            return Ok(0);
        }
        match locked_amount.checked_mul(investor_fee_quote) {
            Some(product) => Ok(product / locked_total),
            None => Err(FeeRouterError::Overflow),
        }
    }
}

} // verus!
