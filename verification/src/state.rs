use vstd::prelude::*;
use vstd::string::StringSliceAdditionalSpecFns;
use crate::error::FeeRouterError;
use crate::pubkey::Pubkey;

verus! {

/// The length of a distribution day in seconds.
pub const SECONDS_PER_DAY: u64 = 86_400;

/// The configuration of a vault's fee distribution.
#[derive(Clone, Debug)]
pub struct PolicyPda {
    pub vault_seed: String,
    pub authority: Pubkey,
    /// The ceiling of the investors' share, 0 to 10000 basis points.
    pub investor_fee_share_bps: u16,
    /// The most that investors receive in one day; 0 is no cap.
    pub daily_cap_quote_lamports: u64,
    /// Payouts below this are not sent but carried over.
    pub min_payout_lamports: u64,
    /// Whether missing destination accounts are created and funded.
    pub policy_fund_missing_ata: bool,
    /// The total investor allocation (Y0).
    pub y0_total_allocation: u128,
    pub quote_mint: Pubkey,
    pub base_mint: Pubkey,
    pub pool_pubkey: Pubkey,
    pub created_at: u64,
    pub updated_at: u64,
}

impl PolicyPda {
    /// A policy is well formed when its share is at most one hundred percent.
    pub open spec fn wf(&self) -> bool {
        self.investor_fee_share_bps <= 10_000
    }

    /// The seeds of the address of a vault's policy.
    pub fn seeds(vault_seed: &str) -> (seeds: [&[u8]; 2])
        ensures
            seeds@[0]@ == vault_seed.spec_bytes(),
            seeds@[1]@ == "policy".spec_bytes(),
    {
        [vault_seed.as_bytes(), "policy".as_bytes()]
    }
}

/// The state of a vault's distribution, kept from call to call.
#[derive(Debug)]
pub struct ProgressPda {
    pub vault_seed: String,
    /// When the last day was sealed; 0 before the first.
    pub last_distribution_ts: u64,
    /// The current day: `floor(timestamp / 86400)`.
    pub day_epoch: u64,
    /// What the investors were paid so far today.
    pub cumulative_distributed_today: u128,
    /// Payouts below the minimum, kept across days.
    pub carry_over_lamports: u64,
    /// The index of the next page.
    pub pagination_cursor: u64,
    pub page_in_progress_flag: bool,
    /// Whether the current day is sealed.
    pub day_finalized_flag: bool,
    /// The number of pages of a day, once known; 0 before.
    pub total_pages_expected: u64,
    pub pages_processed_today: u64,
    pub last_claimed_quote: u128,
    pub last_claimed_base: u128,
    /// The locked total on which the day's weights rest.
    pub day_total_locked: u64,
    /// The investors' pool of the day.
    pub day_investor_pool_target: u64,
    /// What the investors were paid so far today.
    pub day_investor_distributed: u64,
    /// What the day's first claim left for the creator.
    pub day_creator_remainder_target: u64,
    pub created_at: u64,
    pub updated_at: u64,
}

impl Clone for ProgressPda {
    fn clone(&self) -> (copy: ProgressPda)
        ensures
            copy == *self,
    {
        ProgressPda {
            vault_seed: self.vault_seed.clone(),
            last_distribution_ts: self.last_distribution_ts,
            day_epoch: self.day_epoch,
            cumulative_distributed_today: self.cumulative_distributed_today,
            carry_over_lamports: self.carry_over_lamports,
            pagination_cursor: self.pagination_cursor,
            page_in_progress_flag: self.page_in_progress_flag,
            day_finalized_flag: self.day_finalized_flag,
            total_pages_expected: self.total_pages_expected,
            pages_processed_today: self.pages_processed_today,
            last_claimed_quote: self.last_claimed_quote,
            last_claimed_base: self.last_claimed_base,
            day_total_locked: self.day_total_locked,
            day_investor_pool_target: self.day_investor_pool_target,
            day_investor_distributed: self.day_investor_distributed,
            day_creator_remainder_target: self.day_creator_remainder_target,
            created_at: self.created_at,
            updated_at: self.updated_at,
        }
    }
}

impl ProgressPda {
    /// The two counters of the day's payouts agree, and the investors were
    /// paid no more than the day's pool.
    pub open spec fn wf(&self) -> bool {
        &&& self.day_investor_distributed == self.cumulative_distributed_today
        &&& self.cumulative_distributed_today <= self.day_investor_pool_target
    }

    /// Whether `current_ts` lies in a later day than the current one.
    pub open spec fn spec_is_new_day(&self, current_ts: u64) -> bool {
        current_ts / 86_400 > self.day_epoch
    }

    /// Whether a new day may open at `current_ts`: nothing was ever
    /// distributed, or the last distribution is at least 24 hours old.
    pub open spec fn spec_can_start_new_day(&self, current_ts: u64) -> bool {
        self.last_distribution_ts == 0 || current_ts - self.last_distribution_ts >= 86_400
    }

    /// The state at the start of the day of `current_ts`: the day's counters
    /// and targets are zero, the carry-over and the expected page count stay.
    pub open spec fn day_started(self, current_ts: u64) -> ProgressPda {
        ProgressPda {
            day_epoch: current_ts / 86_400,
            cumulative_distributed_today: 0,
            pagination_cursor: 0,
            day_finalized_flag: false,
            pages_processed_today: 0,
            day_total_locked: 0,
            day_investor_pool_target: 0,
            day_investor_distributed: 0,
            day_creator_remainder_target: 0,
            updated_at: current_ts,
            ..self
        }
    }

    /// The state with the day's targets set.
    pub open spec fn with_day_targets(
        self,
        total_locked: u64,
        investor_pool_target: u64,
        creator_remainder_target: u64,
    ) -> ProgressPda {
        ProgressPda {
            day_total_locked: total_locked,
            day_investor_pool_target: investor_pool_target,
            day_creator_remainder_target: creator_remainder_target,
            ..self
        }
    }

    /// The state with the day sealed at `current_ts`.
    pub open spec fn day_finalized(self, current_ts: u64) -> ProgressPda {
        ProgressPda {
            day_finalized_flag: true,
            last_distribution_ts: current_ts,
            pagination_cursor: 0,
            updated_at: current_ts,
            ..self
        }
    }

    /// The seeds of the address of a vault's state.
    pub fn seeds(vault_seed: &str) -> (seeds: [&[u8]; 2])
        ensures
            seeds@[0]@ == vault_seed.spec_bytes(),
            seeds@[1]@ == "progress".spec_bytes(),
    {
        [vault_seed.as_bytes(), "progress".as_bytes()]
    }

    #[verifier::when_used_as_spec(spec_is_new_day)]
    pub fn is_new_day(&self, current_ts: u64) -> (new_day: bool)
        ensures
            new_day == self.spec_is_new_day(current_ts),
    {
        (current_ts / 86_400) > self.day_epoch
    }

    #[verifier::when_used_as_spec(spec_can_start_new_day)]
    pub fn can_start_new_day(&self, current_ts: u64) -> (allowed: bool)
        ensures
            allowed == self.spec_can_start_new_day(current_ts),
    {
        self.last_distribution_ts == 0 || current_ts.saturating_sub(self.last_distribution_ts)
            >= 86_400
    }

    pub fn start_new_day(&mut self, current_ts: u64)
        ensures
            *final(self) == old(self).day_started(current_ts),
            final(self).wf(),
    {
        self.day_epoch = current_ts / 86_400;
        self.cumulative_distributed_today = 0;
        self.pagination_cursor = 0;
        self.day_finalized_flag = false;
        self.pages_processed_today = 0;
        self.day_total_locked = 0;
        self.day_investor_pool_target = 0;
        self.day_investor_distributed = 0;
        self.day_creator_remainder_target = 0;
        self.updated_at = current_ts;
    }

    /// Sets the targets of the day.
    pub fn set_day_targets(
        &mut self,
        total_locked: u64,
        investor_pool_target: u64,
        creator_remainder_target: u64,
    )
        ensures
            *final(self) == old(self).with_day_targets(
                total_locked,
                investor_pool_target,
                creator_remainder_target,
            ),
    {
        self.day_total_locked = total_locked;
        self.day_investor_pool_target = investor_pool_target;
        self.day_creator_remainder_target = creator_remainder_target;
    }

    /// Adds `amount` to what the investors were paid today. Fails, and
    /// changes nothing, when the sum leaves the range of the counter.
    pub fn add_investor_distribution(&mut self, amount: u64) -> (result: Result<(), FeeRouterError>)
        ensures
            old(self).day_investor_distributed + amount <= u64::MAX ==> result == Ok::<
                (),
                FeeRouterError,
            >(()) && *final(self) == (ProgressPda {
                day_investor_distributed: (old(self).day_investor_distributed + amount) as u64,
                ..*old(self)
            }),
            old(self).day_investor_distributed + amount > u64::MAX ==> result == Err::<
                (),
                FeeRouterError,
            >(FeeRouterError::Overflow) && *final(self) == *old(self),
    {
        match self.day_investor_distributed.checked_add(amount) {
            Some(sum) => {
                self.day_investor_distributed = sum;
                Ok(())
            },
            None => Err(FeeRouterError::Overflow),
        }
    }

    /// Seals the day at `current_ts` and resets the cursor.
    pub fn finalize_day(&mut self, current_ts: u64, _total_claimed: u128, _creator_payout: u128)
        ensures
            *final(self) == old(self).day_finalized(current_ts),
    {
        self.day_finalized_flag = true;
        self.last_distribution_ts = current_ts;
        self.pagination_cursor = 0;
        self.updated_at = current_ts;
    }
}

/// The owner record of the honorary position.
#[derive(Clone, Debug)]
pub struct InvestorFeePositionOwnerPda {
    pub vault_seed: String,
    pub position_pubkey: Pubkey,
    pub pool_pubkey: Pubkey,
    pub quote_mint: Pubkey,
    pub tick_lower: i32,
    pub tick_upper: i32,
    pub verified_quote_only: bool,
    pub created_at: u64,
}

impl InvestorFeePositionOwnerPda {
    /// The seeds of the address of a vault's position owner.
    pub fn seeds(vault_seed: &str) -> (seeds: [&[u8]; 2])
        ensures
            seeds@[0]@ == vault_seed.spec_bytes(),
            seeds@[1]@ == "investor_fee_pos_owner".spec_bytes(),
    {
        [vault_seed.as_bytes(), "investor_fee_pos_owner".as_bytes()]
    }
}

} // verus!
