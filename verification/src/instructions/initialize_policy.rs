use vstd::prelude::*;
use crate::error::FeeRouterError;
use crate::events::PolicyUpdated;
use crate::pubkey::Pubkey;
use crate::state::PolicyPda;

verus! {

/// What the creation of a policy reads of its accounts.
#[derive(Clone, Copy, Debug)]
pub struct InitializePolicy {
    pub authority: Pubkey,
    pub quote_mint: Pubkey,
    pub base_mint: Pubkey,
    pub pool: Pubkey,
}

/// Creates the policy of a vault. The share must be at most 10000 basis
/// points, and the two mints must differ.
pub fn handler(
    accounts: &InitializePolicy,
    vault_seed: String,
    investor_fee_share_bps: u16,
    daily_cap_quote_lamports: u64,
    min_payout_lamports: u64,
    policy_fund_missing_ata: bool,
    y0_total_allocation: u128,
    current_timestamp: u64,
) -> (result: Result<(PolicyPda, PolicyUpdated), FeeRouterError>)
    ensures
        investor_fee_share_bps > 10_000 ==> result == Err::<
            (PolicyPda, PolicyUpdated),
            FeeRouterError,
        >(FeeRouterError::InvalidFeeShareBps),
        investor_fee_share_bps <= 10_000 && accounts.quote_mint == accounts.base_mint ==> result
            == Err::<(PolicyPda, PolicyUpdated), FeeRouterError>(FeeRouterError::InvalidPoolOrder),
        investor_fee_share_bps <= 10_000 && accounts.quote_mint != accounts.base_mint ==> result
            == Ok::<(PolicyPda, PolicyUpdated), FeeRouterError>(
            (
                PolicyPda {
                    vault_seed,
                    authority: accounts.authority,
                    investor_fee_share_bps,
                    daily_cap_quote_lamports,
                    min_payout_lamports,
                    policy_fund_missing_ata,
                    y0_total_allocation,
                    quote_mint: accounts.quote_mint,
                    base_mint: accounts.base_mint,
                    pool_pubkey: accounts.pool,
                    created_at: current_timestamp,
                    updated_at: current_timestamp,
                },
                PolicyUpdated {
                    vault_seed,
                    investor_fee_share_bps,
                    daily_cap_quote_lamports,
                    min_payout_lamports,
                    policy_fund_missing_ata,
                    timestamp: current_timestamp,
                },
            ),
        ),
        result matches Ok((policy, _)) ==> policy.wf(),
{
    if investor_fee_share_bps > 10_000 {
        return Err(FeeRouterError::InvalidFeeShareBps);
    }
    if accounts.quote_mint == accounts.base_mint {
        return Err(FeeRouterError::InvalidPoolOrder);
    }
    let event = PolicyUpdated {
        vault_seed: vault_seed.clone(),
        investor_fee_share_bps,
        daily_cap_quote_lamports,
        min_payout_lamports,
        policy_fund_missing_ata,
        timestamp: current_timestamp,
    };
    let policy = PolicyPda {
        vault_seed,
        authority: accounts.authority,
        investor_fee_share_bps,
        daily_cap_quote_lamports,
        min_payout_lamports,
        policy_fund_missing_ata,
        y0_total_allocation,
        quote_mint: accounts.quote_mint,
        base_mint: accounts.base_mint,
        pool_pubkey: accounts.pool,
        created_at: current_timestamp,
        updated_at: current_timestamp,
    };
    Ok((policy, event))
}

} // verus!
