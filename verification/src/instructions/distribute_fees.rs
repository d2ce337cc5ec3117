use vstd::prelude::*;
use crate::cp_amm::{is_event_authority, validate_event_authority};
use crate::error::FeeRouterError;
use crate::events::{CreatorPayoutDayClosed, InvestorPayoutPage, QuoteFeesClaimed};
use crate::lock_accounting::{
    calculate_total_locked_from_streamflow, locked_in_pages, total_investors, RemainingAccount,
};
use crate::math::{
    capped_fee_quote, eligible_bps_checked, investor_fee_quote_checked,
    lemma_scaled_share_bounded, DistributionMath,
};
use crate::page::InvestorPage;
use crate::pagination::{pages_follow, validate_pages};
use crate::payout::{page_plan, process_investor_page, InvestorPayout, PagePlan};
use crate::pubkey::{lemma_pubkey_eq, Pubkey};
use crate::state::{InvestorFeePositionOwnerPda, PolicyPda, ProgressPda};
use crate::streamflow::STREAMFLOW_PROGRAM_ID;

verus! {

/// What a distribution call reads of its accounts.
#[derive(Clone, Debug)]
pub struct DistributeFees {
    /// The honorary position.
    pub position: Pubkey,
    /// The owner record of the position.
    pub position_owner_pda: InvestorFeePositionOwnerPda,
    /// The program that was passed as the pool program.
    pub cp_amm_program: Pubkey,
    /// The account that was passed as the pool program's event authority.
    pub cp_amm_event_authority: Pubkey,
    /// The program that was passed as the stream program.
    pub streamflow_program: Pubkey,
    /// The pool's second mint.
    pub token_b_mint: Pubkey,
    /// The mint of the quote token.
    pub quote_mint: Pubkey,
    /// What the claim left in the holding account of token A.
    pub temp_a_amount: u64,
    /// What the claim left in the holding account of token B.
    pub temp_b_amount: u64,
    /// The treasury of the quote token.
    pub quote_treasury: Pubkey,
    /// The creator's token account.
    pub creator_quote_ata: Pubkey,
    /// For each investor of the pages, in order: the stream account, then
    /// the investor's token account.
    pub remaining_accounts: Vec<RemainingAccount>,
}

/// What a successful call decided: the state to keep, the transfers to make
/// and the events to emit.
pub struct CallOutcome {
    pub progress: ProgressPda,
    /// The claimed quote fees, to be moved from the holding account into the treasury.
    pub claimed_quote: u64,
    /// Whether the quote fees lie in the holding account of token B.
    pub quote_is_token_b: bool,
    /// The transfers from the treasury to investors, in order.
    pub payouts: Seq<InvestorPayout>,
    /// The transfer from the treasury to the creator; zero is none.
    pub creator_payout: u64,
    pub fees_claimed: QuoteFeesClaimed,
    pub page_events: Seq<InvestorPayoutPage>,
    pub day_closed: Option<CreatorPayoutDayClosed>,
}

/// What a successful call hands back: the transfers to make and the events
/// to emit.
#[derive(Debug)]
pub struct Distribution {
    /// The claimed quote fees, to be moved from the holding account into the treasury.
    pub claimed_quote: u64,
    /// Whether the quote fees lie in the holding account of token B.
    pub quote_is_token_b: bool,
    /// The transfers from the treasury to investors, in order.
    pub payouts: Vec<InvestorPayout>,
    /// The transfer from the treasury to the creator; zero is none.
    pub creator_payout: u64,
    pub fees_claimed: QuoteFeesClaimed,
    pub page_events: Vec<InvestorPayoutPage>,
    pub day_closed: Option<CreatorPayoutDayClosed>,
}

impl Distribution {
    /// Whether this is what `outcome` decided.
    pub open spec fn is_outcome(&self, outcome: CallOutcome) -> bool {
        &&& self.claimed_quote == outcome.claimed_quote
        &&& self.quote_is_token_b == outcome.quote_is_token_b
        &&& self.payouts@ == outcome.payouts
        &&& self.creator_payout == outcome.creator_payout
        &&& self.fees_claimed == outcome.fees_claimed
        &&& self.page_events@ == outcome.page_events
        &&& self.day_closed == outcome.day_closed
    }
}

/// The payouts of the pages of a call: the sums over the pages, the
/// transfers in order and one event for each page.
pub struct CallPlan {
    pub distributed: int,
    pub dust: int,
    pub payouts: Seq<InvestorPayout>,
    pub page_events: Seq<InvestorPayoutPage>,
}

/// The day gate. A call in a later day than the current one opens that day,
/// if nothing was distributed yet or the last distribution is 24 hours old.
/// A call in the current day is refused once the day is sealed.
pub open spec fn day_gate(progress: ProgressPda, current_timestamp: u64) -> Result<
    ProgressPda,
    FeeRouterError,
> {
    if progress.is_new_day(current_timestamp) {
        if progress.can_start_new_day(current_timestamp) {
            Ok(progress.day_started(current_timestamp))
        } else {
            Err(FeeRouterError::DayGateNotPassed)
        }
    } else if progress.day_finalized_flag {
        Err(FeeRouterError::DayAlreadyFinalized)
    } else {
        Ok(progress)
    }
}

/// Whether the quote fees of the claim lie in the holding account of token B.
pub open spec fn quote_is_token_b(accounts: DistributeFees) -> bool {
    accounts.quote_mint == accounts.token_b_mint
}

/// The amount of the quote token that the claim produced.
pub open spec fn claimed_quote(accounts: DistributeFees) -> u64 {
    if quote_is_token_b(accounts) {
        accounts.temp_b_amount
    } else {
        accounts.temp_a_amount
    }
}

/// The amount of the base token that the claim produced.
pub open spec fn claimed_base(accounts: DistributeFees) -> u64 {
    if quote_is_token_b(accounts) {
        accounts.temp_a_amount
    } else {
        accounts.temp_b_amount
    }
}

/// The check of the claim: the event authority must be the derived one, and
/// the claim must have produced nothing of the base token.
pub open spec fn claim_checked(accounts: DistributeFees, cp_amm_program_id: Pubkey) -> Result<
    u64,
    FeeRouterError,
> {
    if !is_event_authority(accounts.cp_amm_event_authority, cp_amm_program_id) {
        Err(FeeRouterError::InvalidCpAmmPda)
    } else if claimed_base(accounts) != 0 {
        Err(FeeRouterError::BaseFeeDetected)
    } else {
        Ok(claimed_quote(accounts))
    }
}

/// The state with the day's targets, which the first pages of a day set:
/// the locked total, the investors' pool and what the claim leaves the
/// creator. Later pages of the day keep them.
pub open spec fn freeze_targets(
    progress: ProgressPda,
    total_locked: int,
    investor_pool: u128,
    claimed_quote: u64,
) -> Result<ProgressPda, FeeRouterError> {
    if progress.pages_processed_today != 0 {
        Ok(progress)
    } else if total_locked > u64::MAX || investor_pool > u64::MAX {
        Err(FeeRouterError::Overflow)
    } else {
        Ok(
            progress.with_day_targets(
                total_locked as u64,
                investor_pool as u64,
                if investor_pool >= claimed_quote {
                    0
                } else {
                    (claimed_quote - investor_pool) as u64
                },
            ),
        )
    }
}

/// The plan of a call without pages.
pub open spec fn empty_call_plan() -> CallPlan {
    CallPlan { distributed: 0, dust: 0, payouts: Seq::empty(), page_events: Seq::empty() }
}

/// The event of one processed page.
pub open spec fn page_event(page: InvestorPage, plan: PagePlan, current_timestamp: u64) -> InvestorPayoutPage {
    InvestorPayoutPage {
        page_index: page.page_index,
        investors_processed: page.investors@.len() as u32,
        successful_transfers: page.investors@.len() as u32,
        failed_transfers: 0,
        total_distributed: plan.distributed as u128,
        ata_creation_cost: 0,
        timestamp: current_timestamp,
    }
}

/// The plan after one more page.
pub open spec fn call_step(
    plan: CallPlan,
    page: InvestorPage,
    page_plan: PagePlan,
    current_timestamp: u64,
) -> Result<CallPlan, FeeRouterError> {
    if page.investors@.len() > u32::MAX || plan.distributed + page_plan.distributed > u128::MAX
        || plan.dust + page_plan.dust > u64::MAX {
        Err(FeeRouterError::Overflow)
    } else {
        Ok(
            CallPlan {
                distributed: plan.distributed + page_plan.distributed,
                dust: plan.dust + page_plan.dust,
                payouts: plan.payouts + page_plan.payouts,
                page_events: plan.page_events.push(page_event(page, page_plan, current_timestamp)),
            },
        )
    }
}

/// The payouts of the pages of a call, each investor weighted by
/// `total_locked` and paid from `investor_fee_quote`. The accounts stand in
/// the order of the pages and their investors, two for each investor.
pub open spec fn call_plan(
    accounts: Seq<RemainingAccount>,
    pages: Seq<InvestorPage>,
    streamflow_program_id: Pubkey,
    total_locked: u128,
    investor_fee_quote: u128,
    min_payout_lamports: u64,
    current_timestamp: u64,
) -> Result<CallPlan, FeeRouterError>
    decreases pages.len(),
{
    if pages.len() == 0 {
        Ok(empty_call_plan())
    } else {
        match call_plan(
            accounts,
            pages.drop_last(),
            streamflow_program_id,
            total_locked,
            investor_fee_quote,
            min_payout_lamports,
            current_timestamp,
        ) {
            Err(e) => Err(e),
            Ok(plan) => match page_plan(
                accounts,
                2 * (total_investors(pages.drop_last()) as int),
                pages.last().investors@,
                streamflow_program_id,
                total_locked,
                investor_fee_quote,
                min_payout_lamports,
            ) {
                Err(e) => Err(e),
                Ok(page) => call_step(plan, pages.last(), page, current_timestamp),
            },
        }
    }
}

/// The state after the payouts of a call: the day's counters grow by what
/// was paid, the carry-over by the dust, the cursor moves past the pages. The
/// investors may not have been paid more than the day's pool.
pub open spec fn record_payouts(
    progress: ProgressPda,
    distributed: int,
    dust: int,
    pages: int,
    next_cursor: u64,
    current_timestamp: u64,
) -> Result<ProgressPda, FeeRouterError> {
    if progress.cumulative_distributed_today + distributed > u128::MAX
        || progress.carry_over_lamports + dust > u64::MAX || progress.pages_processed_today + pages
        > u64::MAX || progress.day_investor_distributed + distributed > u64::MAX
        || progress.day_investor_distributed + distributed > progress.day_investor_pool_target {
        Err(FeeRouterError::Overflow)
    } else {
        Ok(
            ProgressPda {
                cumulative_distributed_today: (progress.cumulative_distributed_today
                    + distributed) as u128,
                carry_over_lamports: (progress.carry_over_lamports + dust) as u64,
                pages_processed_today: (progress.pages_processed_today + pages) as u64,
                day_investor_distributed: (progress.day_investor_distributed + distributed) as u64,
                updated_at: current_timestamp,
                pagination_cursor: next_cursor,
                ..progress
            },
        )
    }
}

/// What the creator receives when a day is sealed: what the claim leaves
/// after the investors' payouts of the day and the carry-over, never below zero.
pub open spec fn creator_remainder(
    claimed_quote: int,
    cumulative_distributed_today: int,
    carry_over: int,
) -> int {
    if claimed_quote - cumulative_distributed_today - carry_over <= 0 {
        0
    } else {
        claimed_quote - cumulative_distributed_today - carry_over
    }
}

/// The event of a sealed day.
pub open spec fn day_closed_event(
    progress: ProgressPda,
    current_timestamp: u64,
    total_claimed: u128,
    creator_payout: u128,
) -> CreatorPayoutDayClosed {
    CreatorPayoutDayClosed {
        day_epoch: progress.day_epoch,
        total_claimed,
        total_distributed: progress.cumulative_distributed_today,
        creator_payout,
        carry: progress.carry_over_lamports,
        timestamp: current_timestamp,
    }
}

/// The state with the number of pages of a day fixed by the final page. The
/// first final page fixes it at the cursor; every later one must end at
/// the number that was fixed.
pub open spec fn fix_page_count(progress: ProgressPda) -> Result<ProgressPda, FeeRouterError> {
    if progress.total_pages_expected == 0 {
        Ok(ProgressPda { total_pages_expected: progress.pagination_cursor, ..progress })
    } else if progress.total_pages_expected == progress.pagination_cursor {
        Ok(progress)
    } else {
        Err(FeeRouterError::InvalidPaginationState)
    }
}

/// The event of the claim.
pub open spec fn fees_claimed_event(accounts: DistributeFees, claimed: u64, current_timestamp: u64) -> QuoteFeesClaimed {
    QuoteFeesClaimed {
        claimed_quote: claimed as u128,
        claimed_base: 0,
        position: accounts.position,
        treasury_ata: accounts.quote_treasury,
        timestamp: current_timestamp,
    }
}

/// What the payouts of a call come to: the state after them, the transfers
/// and the events.
pub struct Payment {
    pub progress: ProgressPda,
    pub payouts: Seq<InvestorPayout>,
    pub creator_payout: u64,
    pub page_events: Seq<InvestorPayoutPage>,
    pub day_closed: Option<CreatorPayoutDayClosed>,
}

/// The investors' pool of a call that claimed `claimed` quote fees while
/// its investors have `total_locked` locked: the eligible share of the
/// claim, after the daily cap.
pub open spec fn investor_pool(
    policy: PolicyPda,
    progress: ProgressPda,
    claimed: u64,
    total_locked: int,
) -> Result<u128, FeeRouterError> {
    match eligible_bps_checked(
        total_locked as u128,
        policy.y0_total_allocation,
        policy.investor_fee_share_bps,
    ) {
        Err(e) => Err(e),
        Ok(bps) => match investor_fee_quote_checked(claimed as u128, bps) {
            Err(e) => Err(e),
            Ok(fee_quote) => Ok(
                capped_fee_quote(
                    fee_quote as int,
                    policy.daily_cap_quote_lamports as int,
                    progress.cumulative_distributed_today as int,
                ) as u128,
            ),
        },
    }
}

/// The sealing of a day by the final page of a call that claimed `claimed`.
pub open spec fn seal(progress: ProgressPda, claimed: u64, current_timestamp: u64) -> Result<
    (ProgressPda, u64, CreatorPayoutDayClosed),
    FeeRouterError,
> {
    match fix_page_count(progress) {
        Err(e) => Err(e),
        Ok(counted) => {
            let creator = creator_remainder(
                claimed as int,
                counted.cumulative_distributed_today as int,
                counted.carry_over_lamports as int,
            );
            Ok(
                (
                    counted.day_finalized(current_timestamp),
                    creator as u64,
                    day_closed_event(counted, current_timestamp, claimed as u128, creator as u128),
                ),
            )
        },
    }
}

/// What the payouts of a call come to, once the pages are checked, the
/// locked total is known and the investors' pool is sized: the first pages
/// of a day set the day's targets, each investor is paid by the day's
/// locked total, the payouts are recorded, and the final page seals the day.
pub open spec fn pay(
    policy: PolicyPda,
    progress: ProgressPda,
    accounts: DistributeFees,
    pages: Seq<InvestorPage>,
    is_final_page: bool,
    current_timestamp: u64,
    claimed: u64,
    next_cursor: u64,
    total_locked: int,
    investor_pool: u128,
) -> Result<Payment, FeeRouterError> {
    match freeze_targets(progress, total_locked, investor_pool, claimed) {
        Err(e) => Err(e),
        Ok(targeted) => match call_plan(
            accounts.remaining_accounts@,
            pages,
            accounts.streamflow_program,
            targeted.day_total_locked as u128,
            investor_pool,
            policy.min_payout_lamports,
            current_timestamp,
        ) {
            Err(e) => Err(e),
            Ok(plan) => match record_payouts(
                targeted,
                plan.distributed,
                plan.dust,
                pages.len() as int,
                next_cursor,
                current_timestamp,
            ) {
                Err(e) => Err(e),
                Ok(paid) => {
                    let payment = Payment {
                        progress: paid,
                        payouts: plan.payouts,
                        creator_payout: 0,
                        page_events: plan.page_events,
                        day_closed: None,
                    };
                    if !is_final_page {
                        Ok(payment)
                    } else {
                        match seal(paid, claimed, current_timestamp) {
                            Err(e) => Err(e),
                            Ok((sealed, creator_payout, event)) => Ok(
                                Payment {
                                    progress: sealed,
                                    creator_payout,
                                    day_closed: Some(event),
                                    ..payment
                                },
                            ),
                        }
                    }
                },
            },
        }
    }
}

/// What a call that claimed quote fees pays: the pages must continue the
/// cursor, the streams give the locked total, the policy sizes the pool.
pub open spec fn distribute(
    policy: PolicyPda,
    progress: ProgressPda,
    accounts: DistributeFees,
    pages: Seq<InvestorPage>,
    is_final_page: bool,
    current_timestamp: u64,
    claimed: u64,
) -> Result<Payment, FeeRouterError> {
    match pages_follow(progress.pagination_cursor, pages) {
        Err(e) => Err(e),
        Ok(next_cursor) => match locked_in_pages(
            accounts.remaining_accounts@,
            pages,
            accounts.streamflow_program,
        ) {
            Err(e) => Err(e),
            Ok(total_locked) => match investor_pool(policy, progress, claimed, total_locked) {
                Err(e) => Err(e),
                Ok(pool) => pay(
                    policy,
                    progress,
                    accounts,
                    pages,
                    is_final_page,
                    current_timestamp,
                    claimed,
                    next_cursor,
                    total_locked,
                    pool,
                ),
            },
        },
    }
}

/// What a call decides after a claim of `claimed` quote fees and nothing of
/// the base token, from the state `opened` in which the day is open. A claim
/// of nothing pays nothing and looks at no page, but a final page still
/// seals the day.
pub open spec fn settle(
    policy: PolicyPda,
    opened: ProgressPda,
    accounts: DistributeFees,
    pages: Seq<InvestorPage>,
    is_final_page: bool,
    current_timestamp: u64,
    claimed: u64,
) -> Result<CallOutcome, FeeRouterError> {
    let progress = ProgressPda {
        last_claimed_quote: claimed as u128,
        last_claimed_base: 0,
        ..opened
    };
    let outcome = CallOutcome {
        progress,
        claimed_quote: claimed,
        quote_is_token_b: quote_is_token_b(accounts),
        payouts: Seq::empty(),
        creator_payout: 0,
        fees_claimed: fees_claimed_event(accounts, claimed, current_timestamp),
        page_events: Seq::empty(),
        day_closed: None,
    };
    if claimed == 0 {
        if is_final_page {
            Ok(
                CallOutcome {
                    progress: progress.day_finalized(current_timestamp),
                    day_closed: Some(day_closed_event(progress, current_timestamp, 0, 0)),
                    ..outcome
                },
            )
        } else {
            Ok(outcome)
        }
    } else {
        match distribute(
            policy,
            progress,
            accounts,
            pages,
            is_final_page,
            current_timestamp,
            claimed,
        ) {
            Err(e) => Err(e),
            Ok(payment) => Ok(
                CallOutcome {
                    progress: payment.progress,
                    payouts: payment.payouts,
                    creator_payout: payment.creator_payout,
                    page_events: payment.page_events,
                    day_closed: payment.day_closed,
                    ..outcome
                },
            ),
        }
    }
}

/// The checks that come before the claim, in this order: the position
/// must be the one recorded for the vault, the day gate must pass, the
/// pool program and the stream program must be the expected ones, and there
/// must be two accounts for each investor of the pages. The result is the
/// state in which the day is open.
pub open spec fn claim_allowed(
    progress: ProgressPda,
    accounts: DistributeFees,
    cp_amm_program_id: Pubkey,
    pages: Seq<InvestorPage>,
    current_timestamp: u64,
) -> Result<ProgressPda, FeeRouterError> {
    if accounts.position != accounts.position_owner_pda.position_pubkey {
        Err(FeeRouterError::InvalidPositionOwner)
    } else {
        match day_gate(progress, current_timestamp) {
            Err(e) => Err(e),
            Ok(opened) => if accounts.cp_amm_program != cp_amm_program_id {
                Err(FeeRouterError::InvalidCpAmmProgram)
            } else if accounts.streamflow_program@ != STREAMFLOW_PROGRAM_ID@
                || accounts.remaining_accounts@.len() != 2 * total_investors(pages) {
                Err(FeeRouterError::MissingRequiredInput)
            } else {
                Ok(opened)
            },
        }
    }
}

/// What a distribution call decides: the checks before the claim, then the
/// check of the claim, then the settlement. A call that fails decides
/// nothing.
pub open spec fn distribution(
    policy: PolicyPda,
    progress: ProgressPda,
    accounts: DistributeFees,
    cp_amm_program_id: Pubkey,
    pages: Seq<InvestorPage>,
    is_final_page: bool,
    current_timestamp: u64,
) -> Result<CallOutcome, FeeRouterError> {
    match claim_allowed(progress, accounts, cp_amm_program_id, pages, current_timestamp) {
        Err(e) => Err(e),
        Ok(opened) => match claim_checked(accounts, cp_amm_program_id) {
            Err(e) => Err(e),
            Ok(claimed) => settle(
                policy,
                opened,
                accounts,
                pages,
                is_final_page,
                current_timestamp,
                claimed,
            ),
        },
    }
}

/// The number of investors grows with the pages.
pub proof fn lemma_total_investors_prefix(pages: Seq<InvestorPage>, k: int)
    requires
        0 <= k <= pages.len(),
    ensures
        total_investors(pages.subrange(0, k)) <= total_investors(pages),
    decreases pages.len() - k,
{
    if k == pages.len() {
        assert(pages.subrange(0, k) =~= pages);
    } else {
        let next = pages.subrange(0, k + 1);
        assert(next.drop_last() =~= pages.subrange(0, k));
        lemma_total_investors_prefix(pages, k + 1);
    }
}

/// Whether there are two accounts for each investor of the pages.
pub fn accounts_match_investors(investor_pages: &Vec<InvestorPage>, accounts: usize) -> (matching:
    bool)
    ensures
        matching == (accounts == 2 * total_investors(investor_pages@)),
{
    let mut left: usize = accounts;
    let mut p: usize = 0;
    assert(investor_pages@.subrange(0, 0) =~= Seq::empty());
    while p < investor_pages.len()
        invariant
            p <= investor_pages@.len(),
            left + 2 * total_investors(investor_pages@.subrange(0, p as int)) == accounts,
        decreases investor_pages@.len() - p,
    {
        let ghost next = investor_pages@.subrange(0, p + 1);
        assert(next.drop_last() =~= investor_pages@.subrange(0, p as int));
        assert(next.last() == investor_pages@[p as int]);
        let investors = investor_pages[p].investors.len();
        if investors > left / 2 {
            proof {
                lemma_total_investors_prefix(investor_pages@, p + 1);
            }
            return false;
        }
        left = left - 2 * investors;
        p = p + 1;
    }
    assert(investor_pages@.subrange(0, p as int) =~= investor_pages@);
    left == 0
}

/// Passes the day gate: opens the day of `current_timestamp` where it is a
/// later day and may open, and refuses a call in a sealed day.
pub fn open_day(progress: &mut ProgressPda, current_timestamp: u64) -> (result: Result<
    (),
    FeeRouterError,
>)
    ensures
        match day_gate(*old(progress), current_timestamp) {
            Ok(opened) => result is Ok && *final(progress) == opened,
            Err(e) => result == Err::<(), FeeRouterError>(e) && *final(progress) == *old(progress),
        },
{
    if progress.is_new_day(current_timestamp) {
        if !progress.can_start_new_day(current_timestamp) {
            return Err(FeeRouterError::DayGateNotPassed);
        }
        progress.start_new_day(current_timestamp);
    } else if progress.day_finalized_flag {
        return Err(FeeRouterError::DayAlreadyFinalized);
    }
    Ok(())
}

/// Checks what the claim left in the two holding accounts and returns the
/// claimed quote fees. Any amount of the base token fails the call.
pub fn claim_fees_from_position(accounts: &DistributeFees, cp_amm_program_id: &Pubkey) -> (result:
    Result<u64, FeeRouterError>)
    ensures
        result == claim_checked(*accounts, *cp_amm_program_id),
{
    match validate_event_authority(&accounts.cp_amm_event_authority, cp_amm_program_id) {
        Ok(()) => {},
        Err(e) => {
            return Err(e);
        },
    }
    let (quote_amount, base_amount) = if accounts.quote_mint == accounts.token_b_mint {
        (accounts.temp_b_amount, accounts.temp_a_amount)
    } else {
        (accounts.temp_a_amount, accounts.temp_b_amount)
    };
    if base_amount != 0 {
        return Err(FeeRouterError::BaseFeeDetected);
    }
    Ok(quote_amount)
}

/// Sets the day's targets where no page of the day was processed yet.
pub fn set_targets_once(
    progress: &mut ProgressPda,
    total_locked: u128,
    investor_pool: u128,
    claimed_quote: u64,
) -> (result: Result<(), FeeRouterError>)
    ensures
        match freeze_targets(*old(progress), total_locked as int, investor_pool, claimed_quote) {
            Ok(targeted) => result is Ok && *final(progress) == targeted,
            Err(e) => result == Err::<(), FeeRouterError>(e) && *final(progress) == *old(progress),
        },
{
    if progress.pages_processed_today == 0 {
        if total_locked > u64::MAX as u128 || investor_pool > u64::MAX as u128 {
            return Err(FeeRouterError::Overflow);
        }
        let creator_remainder = claimed_quote.saturating_sub(investor_pool as u64);
        progress.set_day_targets(total_locked as u64, investor_pool as u64, creator_remainder);
    }
    Ok(())
}

/// An error among the first `k` pages is the error of all the pages.
pub proof fn lemma_call_plan_error(
    accounts: Seq<RemainingAccount>,
    pages: Seq<InvestorPage>,
    streamflow_program_id: Pubkey,
    total_locked: u128,
    investor_fee_quote: u128,
    min_payout_lamports: u64,
    current_timestamp: u64,
    k: int,
)
    requires
        0 <= k <= pages.len(),
        call_plan(
            accounts,
            pages.subrange(0, k),
            streamflow_program_id,
            total_locked,
            investor_fee_quote,
            min_payout_lamports,
            current_timestamp,
        ) is Err,
    ensures
        call_plan(
            accounts,
            pages,
            streamflow_program_id,
            total_locked,
            investor_fee_quote,
            min_payout_lamports,
            current_timestamp,
        ) == call_plan(
            accounts,
            pages.subrange(0, k),
            streamflow_program_id,
            total_locked,
            investor_fee_quote,
            min_payout_lamports,
            current_timestamp,
        ),
    decreases pages.len() - k,
{
    if k == pages.len() {
        assert(pages.subrange(0, k) =~= pages);
    } else {
        let next = pages.subrange(0, k + 1);
        assert(next.drop_last() =~= pages.subrange(0, k));
        lemma_call_plan_error(
            accounts,
            pages,
            streamflow_program_id,
            total_locked,
            investor_fee_quote,
            min_payout_lamports,
            current_timestamp,
            k + 1,
        );
    }
}

/// Computes the payouts of the pages of a call: what is transferred in all,
/// the dust, the transfers and one event for each page.
pub fn process_pages(
    investor_pages: &Vec<InvestorPage>,
    remaining_accounts: &Vec<RemainingAccount>,
    streamflow_program_id: &Pubkey,
    total_locked: u128,
    investor_fee_quote: u128,
    min_payout_lamports: u64,
    current_timestamp: u64,
) -> (result: Result<(u128, u64, Vec<InvestorPayout>, Vec<InvestorPayoutPage>), FeeRouterError>)
    ensures
        match result {
            Ok((distributed, dust, payouts, page_events)) => {
                &&& call_plan(
                    remaining_accounts@,
                    investor_pages@,
                    *streamflow_program_id,
                    total_locked,
                    investor_fee_quote,
                    min_payout_lamports,
                    current_timestamp,
                ) matches Ok(plan)
                &&& distributed == plan.distributed
                &&& dust == plan.dust
                &&& payouts@ == plan.payouts
                &&& page_events@ == plan.page_events
            },
            Err(e) => call_plan(
                remaining_accounts@,
                investor_pages@,
                *streamflow_program_id,
                total_locked,
                investor_fee_quote,
                min_payout_lamports,
                current_timestamp,
            ) == Err::<CallPlan, FeeRouterError>(e),
        },
{
    let mut total_distributed: u128 = 0;
    let mut total_dust: u64 = 0;
    let mut payouts: Vec<InvestorPayout> = Vec::new();
    let mut page_events: Vec<InvestorPayoutPage> = Vec::new();
    let mut index: usize = 0;
    let ghost mut plan = empty_call_plan();
    let mut p: usize = 0;
    assert(investor_pages@.subrange(0, 0) =~= Seq::empty());
    while p < investor_pages.len()
        invariant
            p <= investor_pages@.len(),
            index == 2 * total_investors(investor_pages@.subrange(0, p as int)),
            call_plan(
                remaining_accounts@,
                investor_pages@.subrange(0, p as int),
                *streamflow_program_id,
                total_locked,
                investor_fee_quote,
                min_payout_lamports,
                current_timestamp,
            ) == Ok::<CallPlan, FeeRouterError>(plan),
            total_distributed == plan.distributed,
            total_dust == plan.dust,
            payouts@ == plan.payouts,
            page_events@ == plan.page_events,
        decreases investor_pages@.len() - p,
    {
        let page = &investor_pages[p];
        let ghost next = investor_pages@.subrange(0, p + 1);
        assert(next.drop_last() =~= investor_pages@.subrange(0, p as int));
        assert(next.last() == investor_pages@[p as int]);
        proof {
            if call_plan(
                remaining_accounts@,
                next,
                *streamflow_program_id,
                total_locked,
                investor_fee_quote,
                min_payout_lamports,
                current_timestamp,
            ) is Err {
                lemma_call_plan_error(
                    remaining_accounts@,
                    investor_pages@,
                    *streamflow_program_id,
                    total_locked,
                    investor_fee_quote,
                    min_payout_lamports,
                    current_timestamp,
                    p + 1,
                );
            }
        }
        let ghost before = payouts@;
        let (page_distributed, page_dust, page_processed) = match process_investor_page(
            page,
            total_locked,
            investor_fee_quote,
            min_payout_lamports,
            remaining_accounts,
            &mut index,
            streamflow_program_id,
            &mut payouts,
        ) {
            Ok(totals) => totals,
            Err(e) => {
                return Err(e);
            },
        };
        if page_processed > u32::MAX as u64 {
            return Err(FeeRouterError::Overflow);
        }
        total_distributed = match total_distributed.checked_add(page_distributed) {
            Some(sum) => sum,
            None => {
                return Err(FeeRouterError::Overflow);
            },
        };
        total_dust = match total_dust.checked_add(page_dust) {
            Some(sum) => sum,
            None => {
                return Err(FeeRouterError::Overflow);
            },
        };
        page_events.push(
            InvestorPayoutPage {
                page_index: page.page_index,
                investors_processed: page_processed as u32,
                successful_transfers: page_processed as u32,
                failed_transfers: 0,
                total_distributed: page_distributed,
                ata_creation_cost: 0,
                timestamp: current_timestamp,
            },
        );
        proof {
            let page_result = page_plan(
                remaining_accounts@,
                2 * (total_investors(next.drop_last()) as int),
                page.investors@,
                *streamflow_program_id,
                total_locked,
                investor_fee_quote,
                min_payout_lamports,
            )->Ok_0;
            plan = call_step(plan, *page, page_result, current_timestamp)->Ok_0;
        }
        p = p + 1;
    }
    assert(investor_pages@.subrange(0, p as int) =~= investor_pages@);
    Ok((total_distributed, total_dust, payouts, page_events))
}

/// Records the payouts of a call in the state. Fails, and changes nothing,
/// where a counter would leave its range or the investors would have been
/// paid more than the day's pool.
pub fn apply_payouts(
    progress: &mut ProgressPda,
    distributed: u128,
    dust: u64,
    pages: usize,
    next_cursor: u64,
    current_timestamp: u64,
) -> (result: Result<(), FeeRouterError>)
    ensures
        match record_payouts(
            *old(progress),
            distributed as int,
            dust as int,
            pages as int,
            next_cursor,
            current_timestamp,
        ) {
            Ok(paid) => result is Ok && *final(progress) == paid,
            Err(e) => result == Err::<(), FeeRouterError>(e) && *final(progress) == *old(progress),
        },
{
    let cumulative = match progress.cumulative_distributed_today.checked_add(distributed) {
        Some(sum) => sum,
        None => {
            return Err(FeeRouterError::Overflow);
        },
    };
    let carry_over = match progress.carry_over_lamports.checked_add(dust) {
        Some(sum) => sum,
        None => {
            return Err(FeeRouterError::Overflow);
        },
    };
    let pages_processed = match progress.pages_processed_today.checked_add(pages as u64) {
        Some(sum) => sum,
        None => {
            return Err(FeeRouterError::Overflow);
        },
    };
    if distributed > u64::MAX as u128 {
        return Err(FeeRouterError::Overflow);
    }
    let investor_distributed = match progress.day_investor_distributed.checked_add(
        distributed as u64,
    ) {
        Some(sum) => sum,
        None => {
            return Err(FeeRouterError::Overflow);
        },
    };
    if investor_distributed > progress.day_investor_pool_target {
        return Err(FeeRouterError::Overflow);
    }
    progress.cumulative_distributed_today = cumulative;
    progress.carry_over_lamports = carry_over;
    progress.pages_processed_today = pages_processed;
    progress.day_investor_distributed = investor_distributed;
    progress.updated_at = current_timestamp;
    progress.pagination_cursor = next_cursor;
    Ok(())
}

/// Seals the day: returns the transfer to the creator, zero for none, and
/// the event of the sealed day. Fails, and changes nothing, where the
/// payout is no 64-bit amount.
pub fn finalize_day(
    progress: &mut ProgressPda,
    current_timestamp: u64,
    total_claimed: u128,
    creator_payout: u128,
) -> (result: Result<(u64, CreatorPayoutDayClosed), FeeRouterError>)
    ensures
        creator_payout <= u64::MAX ==> result == Ok::<
            (u64, CreatorPayoutDayClosed),
            FeeRouterError,
        >(
            (
                creator_payout as u64,
                day_closed_event(*old(progress), current_timestamp, total_claimed, creator_payout),
            ),
        ) && *final(progress) == old(progress).day_finalized(current_timestamp),
        creator_payout > u64::MAX ==> result == Err::<
            (u64, CreatorPayoutDayClosed),
            FeeRouterError,
        >(FeeRouterError::Overflow) && *final(progress) == *old(progress),
{
    if creator_payout > u64::MAX as u128 {
        return Err(FeeRouterError::Overflow);
    }
    let event = CreatorPayoutDayClosed {
        day_epoch: progress.day_epoch,
        total_claimed,
        total_distributed: progress.cumulative_distributed_today,
        creator_payout,
        carry: progress.carry_over_lamports,
        timestamp: current_timestamp,
    };
    progress.finalize_day(current_timestamp, total_claimed, creator_payout);
    Ok((creator_payout as u64, event))
}

/// Sizes the investors' pool of a call.
pub fn size_investor_pool(
    policy_pda: &PolicyPda,
    progress: &ProgressPda,
    claimed: u64,
    total_locked: u128,
) -> (result: Result<u128, FeeRouterError>)
    ensures
        result == investor_pool(*policy_pda, *progress, claimed, total_locked as int),
        result matches Ok(pool) ==> pool <= claimed,
{
    let eligible_bps = match DistributionMath::calculate_eligible_bps(
        total_locked,
        policy_pda.y0_total_allocation,
        policy_pda.investor_fee_share_bps,
    ) {
        Ok(eligible_bps) => eligible_bps,
        Err(e) => {
            return Err(e);
        },
    };
    let investor_fee_quote = match DistributionMath::calculate_investor_fee_quote(
        claimed as u128,
        eligible_bps,
    ) {
        Ok(investor_fee_quote) => investor_fee_quote,
        Err(e) => {
            return Err(e);
        },
    };
    proof {
        lemma_scaled_share_bounded(eligible_bps as int, 10_000, claimed as int);
        assert(eligible_bps * claimed == claimed * eligible_bps) by (nonlinear_arith);
    }
    Ok(
        DistributionMath::apply_daily_cap(
            investor_fee_quote,
            policy_pda.daily_cap_quote_lamports,
            progress.cumulative_distributed_today,
        ),
    )
}

/// Seals the day on the final page: fixes or checks the number of pages,
/// and pays the creator what the claim leaves. Fails, and changes
/// nothing, where the number of pages is not the one that was fixed.
pub fn seal_day(progress: &mut ProgressPda, claimed: u64, current_timestamp: u64) -> (result: Result<
    (u64, CreatorPayoutDayClosed),
    FeeRouterError,
>)
    ensures
        match seal(*old(progress), claimed, current_timestamp) {
            Ok((sealed, creator_payout, event)) => result == Ok::<
                (u64, CreatorPayoutDayClosed),
                FeeRouterError,
            >((creator_payout, event)) && *final(progress) == sealed,
            Err(e) => result == Err::<(u64, CreatorPayoutDayClosed), FeeRouterError>(e)
                && *final(progress) == *old(progress),
        },
{
    if progress.total_pages_expected != 0 && progress.total_pages_expected
        != progress.pagination_cursor {
        return Err(FeeRouterError::InvalidPaginationState);
    }
    let creator_remainder = (claimed as u128).saturating_sub(
        progress.cumulative_distributed_today,
    ).saturating_sub(progress.carry_over_lamports as u128);
    if progress.total_pages_expected == 0 {
        progress.total_pages_expected = progress.pagination_cursor;
    }
    finalize_day(progress, current_timestamp, claimed as u128, creator_remainder)
}

/// Pays the investors of a call that claimed quote fees, and seals the day
/// on the final page. Returns the state after the call with the transfers
/// and the events.
pub fn pay_investors(
    policy_pda: &PolicyPda,
    progress: ProgressPda,
    accounts: &DistributeFees,
    investor_pages: &Vec<InvestorPage>,
    is_final_page: bool,
    current_timestamp: u64,
    claimed: u64,
) -> (result: Result<
    (ProgressPda, Vec<InvestorPayout>, Vec<InvestorPayoutPage>, u64, Option<CreatorPayoutDayClosed>),
    FeeRouterError,
>)
    ensures
        match result {
            Ok((paid, payouts, page_events, creator_payout, day_closed)) => {
                &&& distribute(
                    *policy_pda,
                    progress,
                    *accounts,
                    investor_pages@,
                    is_final_page,
                    current_timestamp,
                    claimed,
                ) matches Ok(payment)
                &&& paid == payment.progress
                &&& payouts@ == payment.payouts
                &&& page_events@ == payment.page_events
                &&& creator_payout == payment.creator_payout
                &&& day_closed == payment.day_closed
            },
            Err(e) => distribute(
                *policy_pda,
                progress,
                *accounts,
                investor_pages@,
                is_final_page,
                current_timestamp,
                claimed,
            ) == Err::<Payment, FeeRouterError>(e),
        },
{
    let mut progress = progress;
    let next_cursor = match validate_pages(progress.pagination_cursor, investor_pages) {
        Ok(next_cursor) => next_cursor,
        Err(e) => {
            return Err(e);
        },
    };
    let total_locked = match calculate_total_locked_from_streamflow(
        investor_pages,
        &accounts.remaining_accounts,
        &accounts.streamflow_program,
    ) {
        Ok(total_locked) => total_locked,
        Err(e) => {
            return Err(e);
        },
    };
    let capped_investor_fee_quote = match size_investor_pool(
        policy_pda,
        &progress,
        claimed,
        total_locked,
    ) {
        Ok(pool) => pool,
        Err(e) => {
            return Err(e);
        },
    };
    match set_targets_once(&mut progress, total_locked, capped_investor_fee_quote, claimed) {
        Ok(()) => {},
        Err(e) => {
            return Err(e);
        },
    }
    let (distributed, dust, payouts, page_events) = match process_pages(
        investor_pages,
        &accounts.remaining_accounts,
        &accounts.streamflow_program,
        progress.day_total_locked as u128,
        capped_investor_fee_quote,
        policy_pda.min_payout_lamports,
        current_timestamp,
    ) {
        Ok(plan) => plan,
        Err(e) => {
            return Err(e);
        },
    };
    match apply_payouts(
        &mut progress,
        distributed,
        dust,
        investor_pages.len(),
        next_cursor,
        current_timestamp,
    ) {
        Ok(()) => {},
        Err(e) => {
            return Err(e);
        },
    }
    if !is_final_page {
        return Ok((progress, payouts, page_events, 0, None));
    }
    match seal_day(&mut progress, claimed, current_timestamp) {
        Ok((creator_payout, event)) => Ok(
            (progress, payouts, page_events, creator_payout, Some(event)),
        ),
        Err(e) => Err(e),
    }
}

/// Settles a call after its claim was checked, from the state `opened` in
/// which the day is open. Returns the state after the call with what the
/// call hands back.
pub fn settle_call(
    policy_pda: &PolicyPda,
    opened: ProgressPda,
    accounts: &DistributeFees,
    investor_pages: &Vec<InvestorPage>,
    is_final_page: bool,
    current_timestamp: u64,
    claimed: u64,
) -> (result: Result<(ProgressPda, Distribution), FeeRouterError>)
    ensures
        match result {
            Ok((settled, distributed)) => {
                &&& settle(
                    *policy_pda,
                    opened,
                    *accounts,
                    investor_pages@,
                    is_final_page,
                    current_timestamp,
                    claimed,
                ) matches Ok(outcome)
                &&& distributed.is_outcome(outcome)
                &&& settled == outcome.progress
            },
            Err(e) => settle(
                *policy_pda,
                opened,
                *accounts,
                investor_pages@,
                is_final_page,
                current_timestamp,
                claimed,
            ) == Err::<CallOutcome, FeeRouterError>(e),
        },
{
    let mut progress = opened;
    progress.last_claimed_quote = claimed as u128;
    progress.last_claimed_base = 0;
    let quote_is_token_b = accounts.quote_mint == accounts.token_b_mint;
    let fees_claimed = QuoteFeesClaimed {
        claimed_quote: claimed as u128,
        claimed_base: 0,
        position: accounts.position,
        treasury_ata: accounts.quote_treasury,
        timestamp: current_timestamp,
    };
    if claimed == 0 {
        let mut day_closed: Option<CreatorPayoutDayClosed> = None;
        if is_final_page {
            match finalize_day(&mut progress, current_timestamp, 0, 0) {
                Ok((_, event)) => {
                    day_closed = Some(event);
                },
                Err(e) => {
                    return Err(e);
                },
            }
        }
        return Ok(
            (
                progress,
                Distribution {
                    claimed_quote: 0,
                    quote_is_token_b,
                    payouts: Vec::new(),
                    creator_payout: 0,
                    fees_claimed,
                    page_events: Vec::new(),
                    day_closed,
                },
            ),
        );
    }
    match pay_investors(
        policy_pda,
        progress,
        accounts,
        investor_pages,
        is_final_page,
        current_timestamp,
        claimed,
    ) {
        Ok((paid, payouts, page_events, creator_payout, day_closed)) => Ok(
            (
                paid,
                Distribution {
                    claimed_quote: claimed,
                    quote_is_token_b,
                    payouts,
                    creator_payout,
                    fees_claimed,
                    page_events,
                    day_closed,
                },
            ),
        ),
        Err(e) => Err(e),
    }
}

/// Makes the checks that come before the claim, and changes nothing.
pub fn check_before_claim(
    progress_pda: &ProgressPda,
    accounts: &DistributeFees,
    cp_amm_program_id: &Pubkey,
    investor_pages: &Vec<InvestorPage>,
    current_timestamp: u64,
) -> (result: Result<(), FeeRouterError>)
    ensures
        match claim_allowed(
            *progress_pda,
            *accounts,
            *cp_amm_program_id,
            investor_pages@,
            current_timestamp,
        ) {
            Ok(_) => result == Ok::<(), FeeRouterError>(()),
            Err(e) => result == Err::<(), FeeRouterError>(e),
        },
{
    if accounts.position != accounts.position_owner_pda.position_pubkey {
        return Err(FeeRouterError::InvalidPositionOwner);
    }
    if progress_pda.is_new_day(current_timestamp) {
        if !progress_pda.can_start_new_day(current_timestamp) {
            return Err(FeeRouterError::DayGateNotPassed);
        }
    } else if progress_pda.day_finalized_flag {
        return Err(FeeRouterError::DayAlreadyFinalized);
    }
    if accounts.cp_amm_program != *cp_amm_program_id {
        return Err(FeeRouterError::InvalidCpAmmProgram);
    }
    let streamflow_program_id = Pubkey { bytes: STREAMFLOW_PROGRAM_ID };
    proof {
        lemma_pubkey_eq(accounts.streamflow_program, streamflow_program_id);
    }
    if accounts.streamflow_program != streamflow_program_id {
        return Err(FeeRouterError::MissingRequiredInput);
    }
    if !accounts_match_investors(investor_pages, accounts.remaining_accounts.len()) {
        return Err(FeeRouterError::MissingRequiredInput);
    }
    Ok(())
}

/// One call of the daily distribution, after the claim was made: passes
/// the day gate, checks the claim, checks the pages against the cursor,
/// sums what the investors have locked, sizes the investors' pool, computes
/// each investor's payout, and on the final page seals the day. A call that
/// succeeds keeps the new state in `progress_pda` and hands back the
/// transfers and events; a call that fails changes nothing.
pub fn handler(
    policy_pda: &PolicyPda,
    progress_pda: &mut ProgressPda,
    accounts: &DistributeFees,
    cp_amm_program_id: &Pubkey,
    investor_pages: &Vec<InvestorPage>,
    is_final_page: bool,
    current_timestamp: u64,
) -> (result: Result<Distribution, FeeRouterError>)
    ensures
        match result {
            Ok(distributed) => {
                &&& distribution(
                    *policy_pda,
                    *old(progress_pda),
                    *accounts,
                    *cp_amm_program_id,
                    investor_pages@,
                    is_final_page,
                    current_timestamp,
                ) matches Ok(outcome)
                &&& distributed.is_outcome(outcome)
                &&& *final(progress_pda) == outcome.progress
            },
            Err(e) => {
                &&& distribution(
                    *policy_pda,
                    *old(progress_pda),
                    *accounts,
                    *cp_amm_program_id,
                    investor_pages@,
                    is_final_page,
                    current_timestamp,
                ) == Err::<CallOutcome, FeeRouterError>(e)
                &&& *final(progress_pda) == *old(progress_pda)
            },
        },
{
    match check_before_claim(
        progress_pda,
        accounts,
        cp_amm_program_id,
        investor_pages,
        current_timestamp,
    ) {
        Ok(()) => {},
        Err(e) => {
            return Err(e);
        },
    }
    let mut progress = progress_pda.clone();
    match open_day(&mut progress, current_timestamp) {
        Ok(()) => {},
        Err(e) => {
            return Err(e);
        },
    }
    let claimed = match claim_fees_from_position(accounts, cp_amm_program_id) {
        Ok(claimed) => claimed,
        Err(e) => {
            return Err(e);
        },
    };
    match settle_call(
        policy_pda,
        progress,
        accounts,
        investor_pages,
        is_final_page,
        current_timestamp,
        claimed,
    ) {
        Ok((settled, distributed)) => {
            *progress_pda = settled;
            Ok(distributed)
        },
        Err(e) => Err(e),
    }
}

} // verus!
