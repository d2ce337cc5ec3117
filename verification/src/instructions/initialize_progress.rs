use vstd::prelude::*;
use crate::state::ProgressPda;

verus! {

/// The first state of a vault at `current_timestamp`: nothing was claimed,
/// distributed or carried over, no day is open and none is sealed.
pub open spec fn initial_progress(vault_seed: String, current_timestamp: u64) -> ProgressPda {
    ProgressPda {
        vault_seed,
        last_distribution_ts: 0,
        day_epoch: 0,
        cumulative_distributed_today: 0,
        carry_over_lamports: 0,
        pagination_cursor: 0,
        page_in_progress_flag: false,
        day_finalized_flag: false,
        total_pages_expected: 0,
        pages_processed_today: 0,
        last_claimed_quote: 0,
        last_claimed_base: 0,
        day_total_locked: 0,
        day_investor_pool_target: 0,
        day_investor_distributed: 0,
        day_creator_remainder_target: 0,
        created_at: current_timestamp,
        updated_at: current_timestamp,
    }
}

/// Creates the state of a vault.
pub fn handler(vault_seed: String, current_timestamp: u64) -> (progress: ProgressPda)
    ensures
        progress == initial_progress(vault_seed, current_timestamp),
        progress.wf(),
{
    ProgressPda {
        vault_seed,
        last_distribution_ts: 0,
        day_epoch: 0,
        cumulative_distributed_today: 0,
        carry_over_lamports: 0,
        pagination_cursor: 0,
        page_in_progress_flag: false,
        day_finalized_flag: false,
        total_pages_expected: 0,
        pages_processed_today: 0,
        last_claimed_quote: 0,
        last_claimed_base: 0,
        day_total_locked: 0,
        day_investor_pool_target: 0,
        day_investor_distributed: 0,
        day_creator_remainder_target: 0,
        created_at: current_timestamp,
        updated_at: current_timestamp,
    }
}

} // verus!
