use vstd::prelude::*;
use vstd::arithmetic::div_mod::{lemma_fundamental_div_mod, lemma_mod_bound};
use crate::cp_amm::is_event_authority;
use crate::error::FeeRouterError;
use crate::instructions::distribute_fees::{
    call_plan, claim_allowed, claim_checked, claimed_base, claimed_quote, day_gate, distribution,
    freeze_targets, investor_pool, pay, settle, CallOutcome, DistributeFees,
};
use crate::lock_accounting::{holder_locked, locked_in_page, locked_in_pages, total_investors};
use crate::math::{eligible_bps_checked, investor_payout, lemma_scaled_share_bounded};
use crate::lock_accounting::RemainingAccount;
use crate::page::{InvestorData, InvestorPage};
use crate::payout::page_plan;
use crate::pagination::{lemma_pages_follow_error, pages_follow};
use crate::pubkey::Pubkey;
use crate::state::{PolicyPda, ProgressPda};

verus! {

/// The checks of a call that come before the claim is looked at all pass.
pub open spec fn reaches_claim(
    progress: ProgressPda,
    accounts: DistributeFees,
    cp_amm_program_id: Pubkey,
    pages: Seq<InvestorPage>,
    current_timestamp: u64,
) -> bool {
    &&& claim_allowed(progress, accounts, cp_amm_program_id, pages, current_timestamp) is Ok
    &&& is_event_authority(accounts.cp_amm_event_authority, cp_amm_program_id)
}

/// A claim that produced any amount of the base token fails the call,
/// whatever else holds; where the earlier checks pass, it fails with
/// `BaseFeeDetected`. (A call that fails decides nothing: no state, no
/// transfer, no event.)
pub proof fn base_fees_abort_the_call(
    policy: PolicyPda,
    progress: ProgressPda,
    accounts: DistributeFees,
    cp_amm_program_id: Pubkey,
    pages: Seq<InvestorPage>,
    is_final_page: bool,
    current_timestamp: u64,
)
    requires
        claimed_base(accounts) != 0,
    ensures
        distribution(
            policy,
            progress,
            accounts,
            cp_amm_program_id,
            pages,
            is_final_page,
            current_timestamp,
        ) is Err,
        reaches_claim(progress, accounts, cp_amm_program_id, pages, current_timestamp)
            ==> distribution(
            policy,
            progress,
            accounts,
            cp_amm_program_id,
            pages,
            is_final_page,
            current_timestamp,
        ) == Err::<CallOutcome, FeeRouterError>(FeeRouterError::BaseFeeDetected),
{
}

/// A page that was consumed before, one whose index is below the cursor,
/// fails the check of the pages: with the pagination error, unless the
/// indices before it have run out of their range.
pub proof fn replayed_page_fails_the_check(cursor: u64, pages: Seq<InvestorPage>, k: int)
    requires
        0 <= k < pages.len(),
        pages[k].page_index < cursor,
    ensures
        pages_follow(cursor, pages) is Err,
        cursor + k <= u64::MAX ==> pages_follow(cursor, pages) == Err::<u64, FeeRouterError>(
            FeeRouterError::InvalidPaginationState,
        ),
{
    lemma_replayed_prefix(cursor, pages.subrange(0, k + 1));
    lemma_pages_follow_error(cursor, pages, k + 1);
}

proof fn lemma_replayed_prefix(cursor: u64, pages: Seq<InvestorPage>)
    requires
        pages.len() > 0,
        pages.last().page_index < cursor,
    ensures
        pages_follow(cursor, pages) is Err,
        cursor + pages.len() - 1 <= u64::MAX ==> pages_follow(cursor, pages) == Err::<
            u64,
            FeeRouterError,
        >(FeeRouterError::InvalidPaginationState),
{
    lemma_pages_follow_bounds(cursor, pages.drop_last());
}

/// The cursor after pages that pass is the cursor before plus their number;
/// pages fail with an overflow only where that sum leaves the range.
proof fn lemma_pages_follow_bounds(cursor: u64, pages: Seq<InvestorPage>)
    ensures
        pages_follow(cursor, pages) matches Ok(next) ==> next == cursor + pages.len(),
        pages_follow(cursor, pages) == Err::<u64, FeeRouterError>(FeeRouterError::Overflow)
            ==> cursor + pages.len() > u64::MAX,
        pages_follow(cursor, pages) matches Err(e) ==> e == FeeRouterError::Overflow || e
            == FeeRouterError::InvalidPaginationState,
    decreases pages.len(),
{
    if pages.len() > 0 {
        lemma_pages_follow_bounds(cursor, pages.drop_last());
    }
}

/// Replaying a consumed page never pays twice: a call whose claim produced
/// quote fees and that holds a page below the cursor is refused, with the
/// pagination error unless the indices have run out of their range.
pub proof fn replay_is_rejected(
    policy: PolicyPda,
    opened: ProgressPda,
    accounts: DistributeFees,
    pages: Seq<InvestorPage>,
    is_final_page: bool,
    current_timestamp: u64,
    claimed: u64,
    k: int,
)
    requires
        claimed != 0,
        0 <= k < pages.len(),
        pages[k].page_index < opened.pagination_cursor,
    ensures
        settle(policy, opened, accounts, pages, is_final_page, current_timestamp, claimed) is Err,
        opened.pagination_cursor + k <= u64::MAX ==> settle(
            policy,
            opened,
            accounts,
            pages,
            is_final_page,
            current_timestamp,
            claimed,
        ) == Err::<CallOutcome, FeeRouterError>(FeeRouterError::InvalidPaginationState),
{
    replayed_page_fails_the_check(opened.pagination_cursor, pages, k);
}

/// One call of the distribution, as its inputs.
pub struct DistributionCall {
    pub accounts: DistributeFees,
    pub cp_amm_program_id: Pubkey,
    pub pages: Seq<InvestorPage>,
    pub is_final_page: bool,
    pub current_timestamp: u64,
}

/// The state after one call: what the call decided, or the state before
/// where the call failed.
pub open spec fn state_after_call(
    policy: PolicyPda,
    progress: ProgressPda,
    call: DistributionCall,
) -> ProgressPda {
    match distribution(
        policy,
        progress,
        call.accounts,
        call.cp_amm_program_id,
        call.pages,
        call.is_final_page,
        call.current_timestamp,
    ) {
        Ok(outcome) => outcome.progress,
        Err(_) => progress,
    }
}

/// The state after a sequence of calls under one policy.
pub open spec fn state_after_calls(
    policy: PolicyPda,
    progress: ProgressPda,
    calls: Seq<DistributionCall>,
) -> ProgressPda
    decreases calls.len(),
{
    if calls.len() == 0 {
        progress
    } else {
        state_after_call(
            policy,
            state_after_calls(policy, progress, calls.drop_last()),
            calls.last(),
        )
    }
}

/// Under a daily cap, neither what was paid today nor the day's pool is
/// above the cap.
pub open spec fn within_cap(progress: ProgressPda, policy: PolicyPda) -> bool {
    policy.daily_cap_quote_lamports > 0 ==> progress.cumulative_distributed_today
        <= policy.daily_cap_quote_lamports && progress.day_investor_pool_target
        <= policy.daily_cap_quote_lamports
}

proof fn lemma_page_plan_nonnegative(
    accounts: Seq<RemainingAccount>,
    start: int,
    investors: Seq<InvestorData>,
    streamflow_program_id: Pubkey,
    total_locked: u128,
    investor_fee_quote: u128,
    min_payout_lamports: u64,
)
    ensures
        page_plan(
            accounts,
            start,
            investors,
            streamflow_program_id,
            total_locked,
            investor_fee_quote,
            min_payout_lamports,
        ) matches Ok(plan) ==> plan.distributed >= 0 && plan.dust >= 0,
    decreases investors.len(),
{
    if investors.len() > 0 {
        lemma_page_plan_nonnegative(
            accounts,
            start,
            investors.drop_last(),
            streamflow_program_id,
            total_locked,
            investor_fee_quote,
            min_payout_lamports,
        );
    }
}

proof fn lemma_call_plan_nonnegative(
    accounts: Seq<RemainingAccount>,
    pages: Seq<InvestorPage>,
    streamflow_program_id: Pubkey,
    total_locked: u128,
    investor_fee_quote: u128,
    min_payout_lamports: u64,
    current_timestamp: u64,
)
    ensures
        call_plan(
            accounts,
            pages,
            streamflow_program_id,
            total_locked,
            investor_fee_quote,
            min_payout_lamports,
            current_timestamp,
        ) matches Ok(plan) ==> plan.distributed >= 0 && plan.dust >= 0,
    decreases pages.len(),
{
    if pages.len() > 0 {
        lemma_call_plan_nonnegative(
            accounts,
            pages.drop_last(),
            streamflow_program_id,
            total_locked,
            investor_fee_quote,
            min_payout_lamports,
            current_timestamp,
        );
        lemma_page_plan_nonnegative(
            accounts,
            2 * (total_investors(pages.drop_last()) as int),
            pages.last().investors@,
            streamflow_program_id,
            total_locked,
            investor_fee_quote,
            min_payout_lamports,
        );
    }
}

/// What is recorded of a call's payouts keeps a well-formed state well
/// formed and within the cap.
proof fn lemma_pay_keeps_within_cap(
    policy: PolicyPda,
    progress: ProgressPda,
    accounts: DistributeFees,
    pages: Seq<InvestorPage>,
    is_final_page: bool,
    current_timestamp: u64,
    claimed: u64,
    next_cursor: u64,
    total_locked: int,
    investor_pool: u128,
)
    requires
        progress.wf(),
        within_cap(progress, policy),
        policy.daily_cap_quote_lamports > 0 ==> investor_pool <= policy.daily_cap_quote_lamports,
    ensures
        pay(
            policy,
            progress,
            accounts,
            pages,
            is_final_page,
            current_timestamp,
            claimed,
            next_cursor,
            total_locked,
            investor_pool,
        ) matches Ok(paid) ==> paid.progress.wf() && within_cap(paid.progress, policy),
{
    if let Ok(targeted) = freeze_targets(progress, total_locked, investor_pool, claimed) {
        lemma_call_plan_nonnegative(
            accounts.remaining_accounts@,
            pages,
            accounts.streamflow_program,
            targeted.day_total_locked as u128,
            investor_pool,
            policy.min_payout_lamports,
            current_timestamp,
        );
    }
}

/// A call keeps a well-formed state well formed and within the cap.
pub proof fn call_keeps_within_cap(policy: PolicyPda, progress: ProgressPda, call: DistributionCall)
    requires
        progress.wf(),
        within_cap(progress, policy),
    ensures
        state_after_call(policy, progress, call).wf(),
        within_cap(state_after_call(policy, progress, call), policy),
{
    let outcome = distribution(
        policy,
        progress,
        call.accounts,
        call.cp_amm_program_id,
        call.pages,
        call.is_final_page,
        call.current_timestamp,
    );
    if outcome is Ok {
        let opened = day_gate(progress, call.current_timestamp)->Ok_0;
        let claimed = claim_checked(call.accounts, call.cp_amm_program_id)->Ok_0;
        assert(opened.wf() && within_cap(opened, policy));
        let claimed_progress = ProgressPda {
            last_claimed_quote: claimed as u128,
            last_claimed_base: 0,
            ..opened
        };
        assert(outcome == settle(
            policy,
            opened,
            call.accounts,
            call.pages,
            call.is_final_page,
            call.current_timestamp,
            claimed,
        ));
        if claimed != 0 {
            let next_cursor = pages_follow(claimed_progress.pagination_cursor, call.pages)->Ok_0;
            let total_locked = locked_in_pages(
                call.accounts.remaining_accounts@,
                call.pages,
                call.accounts.streamflow_program,
            )->Ok_0;
            let pool = investor_pool(policy, claimed_progress, claimed, total_locked)->Ok_0;
            lemma_pay_keeps_within_cap(
                policy,
                claimed_progress,
                call.accounts,
                call.pages,
                call.is_final_page,
                call.current_timestamp,
                claimed,
                next_cursor,
                total_locked,
                pool,
            );
        }
    }
}

/// Under a daily cap the investors are never paid more than the cap in a
/// day, whatever calls are made: from a well-formed state within the cap,
/// such as the first state of a vault, every sequence of calls leads to a
/// state within the cap.
pub proof fn daily_cap_is_enforced(
    policy: PolicyPda,
    progress: ProgressPda,
    calls: Seq<DistributionCall>,
)
    requires
        progress.wf(),
        within_cap(progress, policy),
    ensures
        state_after_calls(policy, progress, calls).wf(),
        within_cap(state_after_calls(policy, progress, calls), policy),
        policy.daily_cap_quote_lamports > 0 ==> state_after_calls(
            policy,
            progress,
            calls,
        ).cumulative_distributed_today <= policy.daily_cap_quote_lamports,
    decreases calls.len(),
{
    if calls.len() > 0 {
        daily_cap_is_enforced(policy, progress, calls.drop_last());
        call_keeps_within_cap(
            policy,
            state_after_calls(policy, progress, calls.drop_last()),
            calls.last(),
        );
    }
}

/// The cursor moves forward by the pages that a call consumes, and only the
/// opening of a day and its sealing set it back to zero. A call that fails
/// leaves it where it was.
pub proof fn cursor_is_monotonic(policy: PolicyPda, progress: ProgressPda, call: DistributionCall)
    ensures
        ({
            let after = state_after_call(policy, progress, call);
            let outcome = distribution(
                policy,
                progress,
                call.accounts,
                call.cp_amm_program_id,
                call.pages,
                call.is_final_page,
                call.current_timestamp,
            );
            let consumed: int = if claimed_quote(call.accounts) == 0 {
                0
            } else {
                call.pages.len() as int
            };
            &&& outcome is Err ==> after.pagination_cursor == progress.pagination_cursor
            &&& outcome is Ok && call.is_final_page ==> after.pagination_cursor == 0
                && after.day_finalized_flag
            &&& outcome is Ok && !call.is_final_page && progress.is_new_day(call.current_timestamp)
                ==> after.pagination_cursor == consumed
            &&& outcome is Ok && !call.is_final_page && !progress.is_new_day(
                call.current_timestamp,
            ) ==> after.pagination_cursor == progress.pagination_cursor + consumed
            &&& after.pagination_cursor < progress.pagination_cursor ==> progress.is_new_day(
                call.current_timestamp,
            ) || after.day_finalized_flag
        }),
{
    let outcome = distribution(
        policy,
        progress,
        call.accounts,
        call.cp_amm_program_id,
        call.pages,
        call.is_final_page,
        call.current_timestamp,
    );
    if outcome is Ok {
        let opened = day_gate(progress, call.current_timestamp)->Ok_0;
        lemma_pages_follow_bounds(opened.pagination_cursor, call.pages);
    }
}

/// A floored payout, scaled back by the locked total, is at most the
/// investor's part of the pool before flooring.
proof fn lemma_payout_scaled(locked: int, total_locked: int, pool: int)
    requires
        0 <= locked,
        0 <= total_locked,
        0 <= pool,
    ensures
        0 <= investor_payout(locked, total_locked, pool),
        investor_payout(locked, total_locked, pool) * total_locked <= locked * pool,
        total_locked == 0 ==> investor_payout(locked, total_locked, pool) == 0,
{
    if total_locked > 0 {
        let product = locked * pool;
        assert(0 <= product) by (nonlinear_arith)
            requires
                0 <= locked,
                0 <= pool,
                product == locked * pool,
        ;
        lemma_fundamental_div_mod(product, total_locked);
        lemma_mod_bound(product, total_locked);
        let q = product / total_locked;
        assert(q * total_locked == total_locked * q) by (nonlinear_arith);
        assert(0 <= q) by (nonlinear_arith)
            requires
                total_locked * q + product % total_locked == product,
                0 <= product % total_locked < total_locked,
                0 <= product,
                0 < total_locked,
        ;
    }
}

/// The payouts and the dust of a page, scaled back by the locked total, are
/// at most the pool scaled by what the page's investors have locked.
proof fn lemma_page_plan_scaled(
    accounts: Seq<RemainingAccount>,
    start: int,
    investors: Seq<InvestorData>,
    streamflow_program_id: Pubkey,
    total_locked: u128,
    pool: u128,
    min_payout_lamports: u64,
)
    requires
        locked_in_page(accounts, start, investors, streamflow_program_id) is Ok,
        page_plan(
            accounts,
            start,
            investors,
            streamflow_program_id,
            total_locked,
            pool,
            min_payout_lamports,
        ) is Ok,
    ensures
        ({
            let locked = locked_in_page(accounts, start, investors, streamflow_program_id)->Ok_0;
            let plan = page_plan(
                accounts,
                start,
                investors,
                streamflow_program_id,
                total_locked,
                pool,
                min_payout_lamports,
            )->Ok_0;
            &&& 0 <= locked
            &&& 0 <= plan.distributed
            &&& 0 <= plan.dust
            &&& (plan.distributed + plan.dust) * total_locked <= locked * pool
            &&& total_locked == 0 ==> plan.distributed + plan.dust == 0
        }),
    decreases investors.len(),
{
    if investors.len() > 0 {
        lemma_page_plan_scaled(
            accounts,
            start,
            investors.drop_last(),
            streamflow_program_id,
            total_locked,
            pool,
            min_payout_lamports,
        );
        let before_locked = locked_in_page(
            accounts,
            start,
            investors.drop_last(),
            streamflow_program_id,
        )->Ok_0;
        let before = page_plan(
            accounts,
            start,
            investors.drop_last(),
            streamflow_program_id,
            total_locked,
            pool,
            min_payout_lamports,
        )->Ok_0;
        let locked = holder_locked(
            accounts,
            start + 2 * (investors.len() - 1),
            investors.last(),
            streamflow_program_id,
        )->Ok_0;
        let after = page_plan(
            accounts,
            start,
            investors,
            streamflow_program_id,
            total_locked,
            pool,
            min_payout_lamports,
        )->Ok_0;
        let payout = investor_payout(locked as int, total_locked as int, pool as int);
        lemma_payout_scaled(locked as int, total_locked as int, pool as int);
        let paid: int = if locked == 0 {
            0
        } else {
            payout
        };
        assert(after.distributed + after.dust == before.distributed + before.dust + paid);
        assert(paid * total_locked <= locked * pool) by (nonlinear_arith)
            requires
                paid == 0 || paid * total_locked <= locked * pool,
                0 <= locked,
                0 <= pool,
        ;
        assert((before.distributed + before.dust + paid) * total_locked <= (before_locked + locked)
            * pool) by (nonlinear_arith)
            requires
                (before.distributed + before.dust) * total_locked <= before_locked * pool,
                paid * total_locked <= locked * pool,
        ;
    }
}

/// The payouts and the dust of a call, scaled back by the locked total,
/// are at most the pool scaled by what the call's investors have locked.
proof fn lemma_call_plan_scaled(
    accounts: Seq<RemainingAccount>,
    pages: Seq<InvestorPage>,
    streamflow_program_id: Pubkey,
    total_locked: u128,
    pool: u128,
    min_payout_lamports: u64,
    current_timestamp: u64,
)
    requires
        locked_in_pages(accounts, pages, streamflow_program_id) is Ok,
        call_plan(
            accounts,
            pages,
            streamflow_program_id,
            total_locked,
            pool,
            min_payout_lamports,
            current_timestamp,
        ) is Ok,
    ensures
        ({
            let locked = locked_in_pages(accounts, pages, streamflow_program_id)->Ok_0;
            let plan = call_plan(
                accounts,
                pages,
                streamflow_program_id,
                total_locked,
                pool,
                min_payout_lamports,
                current_timestamp,
            )->Ok_0;
            &&& 0 <= locked
            &&& 0 <= plan.distributed
            &&& 0 <= plan.dust
            &&& (plan.distributed + plan.dust) * total_locked <= locked * pool
            &&& total_locked == 0 ==> plan.distributed + plan.dust == 0
        }),
    decreases pages.len(),
{
    if pages.len() > 0 {
        lemma_call_plan_scaled(
            accounts,
            pages.drop_last(),
            streamflow_program_id,
            total_locked,
            pool,
            min_payout_lamports,
            current_timestamp,
        );
        let start = 2 * (total_investors(pages.drop_last()) as int);
        lemma_page_plan_scaled(
            accounts,
            start,
            pages.last().investors@,
            streamflow_program_id,
            total_locked,
            pool,
            min_payout_lamports,
        );
        let before_locked = locked_in_pages(accounts, pages.drop_last(), streamflow_program_id)->Ok_0;
        let before = call_plan(
            accounts,
            pages.drop_last(),
            streamflow_program_id,
            total_locked,
            pool,
            min_payout_lamports,
            current_timestamp,
        )->Ok_0;
        let page_locked = locked_in_page(
            accounts,
            start,
            pages.last().investors@,
            streamflow_program_id,
        )->Ok_0;
        let page = page_plan(
            accounts,
            start,
            pages.last().investors@,
            streamflow_program_id,
            total_locked,
            pool,
            min_payout_lamports,
        )->Ok_0;
        assert((before.distributed + before.dust + page.distributed + page.dust) * total_locked <= (
        before_locked + page_locked) * pool) by (nonlinear_arith)
            requires
                (before.distributed + before.dust) * total_locked <= before_locked * pool,
                (page.distributed + page.dust) * total_locked <= page_locked * pool,
        ;
    }
}

/// Nothing is lost in a day that one call distributes and seals: where the
/// call is the first to process pages of its day, is marked final, and no
/// dust was carried over before, what the investors were paid, what the
/// creator is paid and the dust that is carried over add up to the claimed
/// quote fees.
pub proof fn sealed_day_conserves_the_claim(
    policy: PolicyPda,
    progress: ProgressPda,
    call: DistributionCall,
)
    requires
        distribution(
            policy,
            progress,
            call.accounts,
            call.cp_amm_program_id,
            call.pages,
            call.is_final_page,
            call.current_timestamp,
        ) is Ok,
        call.is_final_page,
        progress.carry_over_lamports == 0,
        progress.is_new_day(call.current_timestamp) || (progress.pages_processed_today == 0
            && progress.cumulative_distributed_today == 0),
    ensures
        ({
            let outcome = distribution(
                policy,
                progress,
                call.accounts,
                call.cp_amm_program_id,
                call.pages,
                call.is_final_page,
                call.current_timestamp,
            )->Ok_0;
            &&& outcome.day_closed is Some
            &&& outcome.progress.day_finalized_flag
            &&& outcome.progress.cumulative_distributed_today + outcome.creator_payout + (
            outcome.progress.carry_over_lamports - progress.carry_over_lamports) == claimed_quote(
                call.accounts,
            )
        }),
{
    let opened = day_gate(progress, call.current_timestamp)->Ok_0;
    let claimed = claim_checked(call.accounts, call.cp_amm_program_id)->Ok_0;
    let claimed_progress = ProgressPda {
        last_claimed_quote: claimed as u128,
        last_claimed_base: 0,
        ..opened
    };
    if claimed != 0 {
        let accounts = call.accounts.remaining_accounts@;
        let program = call.accounts.streamflow_program;
        let total_locked = locked_in_pages(accounts, call.pages, program)->Ok_0;
        let bps = eligible_bps_checked(
            total_locked as u128,
            policy.y0_total_allocation,
            policy.investor_fee_share_bps,
        )->Ok_0;
        let pool = investor_pool(policy, claimed_progress, claimed, total_locked)->Ok_0;
        let targeted = freeze_targets(claimed_progress, total_locked, pool, claimed)->Ok_0;
        lemma_scaled_share_bounded(
            total_locked as u128 as int,
            policy.y0_total_allocation as int,
            10_000,
        );
        assert((total_locked as u128) * 10_000 == 10_000 * (total_locked as u128));
        lemma_scaled_share_bounded(bps as int, 10_000, claimed as int);
        assert(bps * claimed == claimed * bps) by (nonlinear_arith);
        assert(pool <= claimed);
        lemma_call_plan_scaled(
            accounts,
            call.pages,
            program,
            targeted.day_total_locked as u128,
            pool,
            policy.min_payout_lamports,
            call.current_timestamp,
        );
        let plan = call_plan(
            accounts,
            call.pages,
            program,
            targeted.day_total_locked as u128,
            pool,
            policy.min_payout_lamports,
            call.current_timestamp,
        )->Ok_0;
        assert(targeted.day_total_locked == total_locked);
        assert(plan.distributed + plan.dust <= pool) by (nonlinear_arith)
            requires
                (plan.distributed + plan.dust) * total_locked <= total_locked * pool,
                total_locked == 0 ==> plan.distributed + plan.dust == 0,
                0 <= total_locked,
                0 <= pool,
        ;
    }
}

/// A sealed day admits no further call: until a later day begins, every
/// call is refused, and unless the position is the wrong one, it is refused
/// because the day is sealed.
pub proof fn sealed_day_admits_no_call(
    policy: PolicyPda,
    progress: ProgressPda,
    call: DistributionCall,
)
    requires
        progress.day_finalized_flag,
        !progress.is_new_day(call.current_timestamp),
    ensures
        distribution(
            policy,
            progress,
            call.accounts,
            call.cp_amm_program_id,
            call.pages,
            call.is_final_page,
            call.current_timestamp,
        ) is Err,
        call.accounts.position == call.accounts.position_owner_pda.position_pubkey
            ==> distribution(
            policy,
            progress,
            call.accounts,
            call.cp_amm_program_id,
            call.pages,
            call.is_final_page,
            call.current_timestamp,
        ) == Err::<CallOutcome, FeeRouterError>(FeeRouterError::DayAlreadyFinalized),
        state_after_call(policy, progress, call) == progress,
{
}

/// The carry-over never shrinks: a call adds its dust to it, and neither
/// the opening of a day nor its sealing takes anything from it.
pub proof fn carry_over_never_shrinks(
    policy: PolicyPda,
    progress: ProgressPda,
    call: DistributionCall,
)
    ensures
        state_after_call(policy, progress, call).carry_over_lamports
            >= progress.carry_over_lamports,
{
    let outcome = distribution(
        policy,
        progress,
        call.accounts,
        call.cp_amm_program_id,
        call.pages,
        call.is_final_page,
        call.current_timestamp,
    );
    if outcome is Ok {
        let opened = day_gate(progress, call.current_timestamp)->Ok_0;
        let claimed = claim_checked(call.accounts, call.cp_amm_program_id)->Ok_0;
        let claimed_progress = ProgressPda {
            last_claimed_quote: claimed as u128,
            last_claimed_base: 0,
            ..opened
        };
        if claimed != 0 {
            let total_locked = locked_in_pages(
                call.accounts.remaining_accounts@,
                call.pages,
                call.accounts.streamflow_program,
            )->Ok_0;
            let pool = investor_pool(policy, claimed_progress, claimed, total_locked)->Ok_0;
            let targeted = freeze_targets(claimed_progress, total_locked, pool, claimed)->Ok_0;
            lemma_call_plan_nonnegative(
                call.accounts.remaining_accounts@,
                call.pages,
                call.accounts.streamflow_program,
                targeted.day_total_locked as u128,
                pool,
                policy.min_payout_lamports,
                call.current_timestamp,
            );
        }
    }
}

} // verus!
