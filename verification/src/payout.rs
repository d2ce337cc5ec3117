use vstd::prelude::*;
use crate::error::FeeRouterError;
use crate::lock_accounting::{holder_locked, read_locked_amount, RemainingAccount};
use crate::math::{investor_payout_checked, DistributionMath};
use crate::page::{InvestorData, InvestorPage};
use crate::pubkey::Pubkey;

verus! {

/// A transfer from the treasury to an investor's token account.
#[derive(Clone, Copy, Debug)]
pub struct InvestorPayout {
    pub destination: Pubkey,
    pub amount: u64,
}

/// What the investors of a page receive: the sum that is transferred, the
/// sum of the payouts below the minimum, and the transfers in order.
pub struct PagePlan {
    pub distributed: int,
    pub dust: int,
    pub payouts: Seq<InvestorPayout>,
}

/// The plan of a page without investors.
pub open spec fn empty_page_plan() -> PagePlan {
    PagePlan { distributed: 0, dust: 0, payouts: Seq::empty() }
}

/// The plan after one more investor with `locked` tokens. An investor with
/// nothing locked changes nothing. A payout below the minimum is added to
/// the dust, any other is transferred to `destination`.
pub open spec fn holder_step(
    plan: PagePlan,
    locked: u64,
    destination: Pubkey,
    total_locked: u128,
    investor_fee_quote: u128,
    min_payout_lamports: u64,
) -> Result<PagePlan, FeeRouterError> {
    if locked == 0 {
        Ok(plan)
    } else {
        match investor_payout_checked(locked as u128, total_locked, investor_fee_quote) {
            Err(e) => Err(e),
            Ok(payout) => if payout < min_payout_lamports {
                if plan.dust + payout > u64::MAX {
                    Err(FeeRouterError::Overflow)
                } else {
                    Ok(PagePlan { dust: plan.dust + payout, ..plan })
                }
            } else if payout > u64::MAX || plan.distributed + payout > u128::MAX {
                Err(FeeRouterError::Overflow)
            } else {
                Ok(
                    PagePlan {
                        distributed: plan.distributed + payout,
                        payouts: plan.payouts.push(
                            InvestorPayout { destination, amount: payout as u64 },
                        ),
                        ..plan
                    },
                )
            },
        }
    }
}

/// The plan of the given investors, the accounts of the first of them
/// standing at `start`: for each the stream account, then the token account
/// that receives the payout. The error is that of the first investor who
/// fails.
pub open spec fn page_plan(
    accounts: Seq<RemainingAccount>,
    start: int,
    investors: Seq<InvestorData>,
    streamflow_program_id: Pubkey,
    total_locked: u128,
    investor_fee_quote: u128,
    min_payout_lamports: u64,
) -> Result<PagePlan, FeeRouterError>
    decreases investors.len(),
{
    if investors.len() == 0 {
        Ok(empty_page_plan())
    } else {
        let at = start + 2 * (investors.len() - 1);
        match page_plan(
            accounts,
            start,
            investors.drop_last(),
            streamflow_program_id,
            total_locked,
            investor_fee_quote,
            min_payout_lamports,
        ) {
            Err(e) => Err(e),
            Ok(plan) => match holder_locked(accounts, at, investors.last(), streamflow_program_id) {
                Err(e) => Err(e),
                Ok(locked) => holder_step(
                    plan,
                    locked,
                    accounts[at + 1].key,
                    total_locked,
                    investor_fee_quote,
                    min_payout_lamports,
                ),
            },
        }
    }
}

/// An error among the first `k` investors of a page is the error of the page.
pub proof fn lemma_page_plan_error(
    accounts: Seq<RemainingAccount>,
    start: int,
    investors: Seq<InvestorData>,
    streamflow_program_id: Pubkey,
    total_locked: u128,
    investor_fee_quote: u128,
    min_payout_lamports: u64,
    k: int,
)
    requires
        0 <= k <= investors.len(),
        page_plan(
            accounts,
            start,
            investors.subrange(0, k),
            streamflow_program_id,
            total_locked,
            investor_fee_quote,
            min_payout_lamports,
        ) is Err,
    ensures
        page_plan(
            accounts,
            start,
            investors,
            streamflow_program_id,
            total_locked,
            investor_fee_quote,
            min_payout_lamports,
        ) == page_plan(
            accounts,
            start,
            investors.subrange(0, k),
            streamflow_program_id,
            total_locked,
            investor_fee_quote,
            min_payout_lamports,
        ),
    decreases investors.len() - k,
{
    if k == investors.len() {
        assert(investors.subrange(0, k) =~= investors);
    } else {
        let next = investors.subrange(0, k + 1);
        assert(next.drop_last() =~= investors.subrange(0, k));
        lemma_page_plan_error(
            accounts,
            start,
            investors,
            streamflow_program_id,
            total_locked,
            investor_fee_quote,
            min_payout_lamports,
            k + 1,
        );
    }
}

/// Computes the payouts of one page. The accounts of the page's investors
/// stand at `remaining_accounts_index` and after, two for each investor.
/// Returns what is transferred, the dust and the number of investors, adds
/// the transfers to `payouts` and moves the index past the page. Where it
/// fails, the transfers and the index of the investors before the failure
/// stay.
pub fn process_investor_page(
    investor_page: &InvestorPage,
    total_locked: u128,
    investor_fee_quote: u128,
    min_payout_lamports: u64,
    remaining_accounts: &Vec<RemainingAccount>,
    remaining_accounts_index: &mut usize,
    streamflow_program_id: &Pubkey,
    payouts: &mut Vec<InvestorPayout>,
) -> (result: Result<(u128, u64, u64), FeeRouterError>)
    ensures
        match result {
            Ok((distributed, dust, processed)) => {
                &&& page_plan(
                    remaining_accounts@,
                    *old(remaining_accounts_index) as int,
                    investor_page.investors@,
                    *streamflow_program_id,
                    total_locked,
                    investor_fee_quote,
                    min_payout_lamports,
                ) matches Ok(plan)
                &&& distributed == plan.distributed
                &&& dust == plan.dust
                &&& final(payouts)@ == old(payouts)@ + plan.payouts
                &&& processed == investor_page.investors@.len()
                &&& *final(remaining_accounts_index) == *old(remaining_accounts_index) + 2
                    * investor_page.investors@.len()
            },
            Err(e) => page_plan(
                remaining_accounts@,
                *old(remaining_accounts_index) as int,
                investor_page.investors@,
                *streamflow_program_id,
                total_locked,
                investor_fee_quote,
                min_payout_lamports,
            ) == Err::<PagePlan, FeeRouterError>(e),
        },
        old(payouts)@.is_prefix_of(final(payouts)@),
        *old(remaining_accounts_index) <= *final(remaining_accounts_index),
{
    let mut page_distributed: u128 = 0;
    let mut page_dust: u64 = 0;
    let ghost start = *remaining_accounts_index as int;
    let ghost investors = investor_page.investors@;
    let ghost mut plan = empty_page_plan();
    let mut i: usize = 0;
    assert(investors.subrange(0, 0) =~= Seq::empty());
    while i < investor_page.investors.len()
        invariant
            i <= investors.len(),
            investors == investor_page.investors@,
            start == *old(remaining_accounts_index),
            *remaining_accounts_index == start + 2 * i,
            page_plan(
                remaining_accounts@,
                start,
                investors.subrange(0, i as int),
                *streamflow_program_id,
                total_locked,
                investor_fee_quote,
                min_payout_lamports,
            ) == Ok::<PagePlan, FeeRouterError>(plan),
            page_distributed == plan.distributed,
            page_dust == plan.dust,
            payouts@ == old(payouts)@ + plan.payouts,
        decreases investors.len() - i,
    {
        let ghost next = investors.subrange(0, i + 1);
        assert(next.drop_last() =~= investors.subrange(0, i as int));
        assert(next.last() == investors[i as int]);
        proof {
            if page_plan(
                remaining_accounts@,
                start,
                next,
                *streamflow_program_id,
                total_locked,
                investor_fee_quote,
                min_payout_lamports,
            ) is Err {
                lemma_page_plan_error(
                    remaining_accounts@,
                    start,
                    investors,
                    *streamflow_program_id,
                    total_locked,
                    investor_fee_quote,
                    min_payout_lamports,
                    i + 1,
                );
            }
        }
        let index = *remaining_accounts_index;
        if index >= remaining_accounts.len() || index + 1 >= remaining_accounts.len() {
            return Err(FeeRouterError::MissingRequiredInput);
        }
        let locked = match read_locked_amount(
            &remaining_accounts[index],
            &investor_page.investors[i],
            streamflow_program_id,
        ) {
            Ok(locked) => locked,
            Err(e) => {
                return Err(e);
            },
        };
        let destination = remaining_accounts[index + 1].key;
        if locked != 0 {
            let raw_payout = match DistributionMath::calculate_investor_payout(
                locked as u128,
                total_locked,
                investor_fee_quote,
            ) {
                Ok(raw_payout) => raw_payout,
                Err(e) => {
                    return Err(e);
                },
            };
            if raw_payout < min_payout_lamports as u128 {
                page_dust = match page_dust.checked_add(raw_payout as u64) {
                    Some(sum) => sum,
                    None => {
                        return Err(FeeRouterError::Overflow);
                    },
                };
                proof {
                    plan = PagePlan { dust: plan.dust + raw_payout, ..plan };
                }
            } else {
                if raw_payout > u64::MAX as u128 {
                    return Err(FeeRouterError::Overflow);
                }
                page_distributed = match page_distributed.checked_add(raw_payout) {
                    Some(sum) => sum,
                    None => {
                        return Err(FeeRouterError::Overflow);
                    },
                };
                payouts.push(InvestorPayout { destination, amount: raw_payout as u64 });
                proof {
                    plan = PagePlan {
                        distributed: plan.distributed + raw_payout,
                        payouts: plan.payouts.push(
                            InvestorPayout { destination, amount: raw_payout as u64 },
                        ),
                        ..plan
                    };
                    assert(payouts@ =~= old(payouts)@ + plan.payouts);
                }
            }
        }
        *remaining_accounts_index = index + 2;
        i = i + 1;
    }
    assert(investors.subrange(0, i as int) =~= investors);
    Ok((page_distributed, page_dust, investor_page.investors.len() as u64))
}

} // verus!
