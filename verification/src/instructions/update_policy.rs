use vstd::prelude::*;
use crate::error::FeeRouterError;
use crate::events::PolicyUpdated;
use crate::state::PolicyPda;

verus! {

/// Whether an update changes anything.
pub open spec fn changes_policy(
    new_investor_fee_share_bps: Option<u16>,
    new_daily_cap_quote_lamports: Option<u64>,
    new_min_payout_lamports: Option<u64>,
    new_policy_fund_missing_ata: Option<bool>,
) -> bool {
    new_investor_fee_share_bps is Some || new_daily_cap_quote_lamports is Some
        || new_min_payout_lamports is Some || new_policy_fund_missing_ata is Some
}

/// The policy after an update: each value that is given replaces the old
/// one, and an update that gives any value stamps the policy.
pub open spec fn updated_policy(
    policy: PolicyPda,
    new_investor_fee_share_bps: Option<u16>,
    new_daily_cap_quote_lamports: Option<u64>,
    new_min_payout_lamports: Option<u64>,
    new_policy_fund_missing_ata: Option<bool>,
    current_timestamp: u64,
) -> PolicyPda {
    PolicyPda {
        investor_fee_share_bps: match new_investor_fee_share_bps {
            Some(bps) => bps,
            None => policy.investor_fee_share_bps,
        },
        daily_cap_quote_lamports: match new_daily_cap_quote_lamports {
            Some(cap) => cap,
            None => policy.daily_cap_quote_lamports,
        },
        min_payout_lamports: match new_min_payout_lamports {
            Some(min_payout) => min_payout,
            None => policy.min_payout_lamports,
        },
        policy_fund_missing_ata: match new_policy_fund_missing_ata {
            Some(fund) => fund,
            None => policy.policy_fund_missing_ata,
        },
        updated_at: if changes_policy(
            new_investor_fee_share_bps,
            new_daily_cap_quote_lamports,
            new_min_payout_lamports,
            new_policy_fund_missing_ata,
        ) {
            current_timestamp
        } else {
            policy.updated_at
        },
        ..policy
    }
}

/// Updates the policy of a vault. A share above 10000 basis points is
/// refused and nothing changes. An update that changes something returns
/// the event of the change.
pub fn handler(
    policy_pda: &mut PolicyPda,
    vault_seed: String,
    new_investor_fee_share_bps: Option<u16>,
    new_daily_cap_quote_lamports: Option<u64>,
    new_min_payout_lamports: Option<u64>,
    new_policy_fund_missing_ata: Option<bool>,
    current_timestamp: u64,
) -> (result: Result<Option<PolicyUpdated>, FeeRouterError>)
    ensures
        (new_investor_fee_share_bps matches Some(bps) && bps > 10_000) ==> result == Err::<
            Option<PolicyUpdated>,
            FeeRouterError,
        >(FeeRouterError::InvalidFeeShareBps) && *final(policy_pda) == *old(policy_pda),
        !(new_investor_fee_share_bps matches Some(bps) && bps > 10_000) ==> {
            &&& *final(policy_pda) == updated_policy(
                *old(policy_pda),
                new_investor_fee_share_bps,
                new_daily_cap_quote_lamports,
                new_min_payout_lamports,
                new_policy_fund_missing_ata,
                current_timestamp,
            )
            &&& result == Ok::<Option<PolicyUpdated>, FeeRouterError>(
                if changes_policy(
                    new_investor_fee_share_bps,
                    new_daily_cap_quote_lamports,
                    new_min_payout_lamports,
                    new_policy_fund_missing_ata,
                ) {
                    Some(
                        PolicyUpdated {
                            vault_seed,
                            investor_fee_share_bps: final(policy_pda).investor_fee_share_bps,
                            daily_cap_quote_lamports: final(policy_pda).daily_cap_quote_lamports,
                            min_payout_lamports: final(policy_pda).min_payout_lamports,
                            policy_fund_missing_ata: final(policy_pda).policy_fund_missing_ata,
                            timestamp: current_timestamp,
                        },
                    )
                } else {
                    None
                },
            )
            &&& old(policy_pda).wf() ==> final(policy_pda).wf()
        },
{
    let mut updated = false;
    if let Some(fee_share_bps) = new_investor_fee_share_bps {
        if fee_share_bps > 10_000 {
            return Err(FeeRouterError::InvalidFeeShareBps);
        }
        policy_pda.investor_fee_share_bps = fee_share_bps;
        updated = true;
    }
    if let Some(daily_cap) = new_daily_cap_quote_lamports {
        policy_pda.daily_cap_quote_lamports = daily_cap;
        updated = true;
    }
    if let Some(min_payout) = new_min_payout_lamports {
        policy_pda.min_payout_lamports = min_payout;
        updated = true;
    }
    if let Some(fund_missing_ata) = new_policy_fund_missing_ata {
        policy_pda.policy_fund_missing_ata = fund_missing_ata;
        updated = true;
    }
    if updated {
        policy_pda.updated_at = current_timestamp;
        Ok(
            Some(
                PolicyUpdated {
                    vault_seed,
                    investor_fee_share_bps: policy_pda.investor_fee_share_bps,
                    daily_cap_quote_lamports: policy_pda.daily_cap_quote_lamports,
                    min_payout_lamports: policy_pda.min_payout_lamports,
                    policy_fund_missing_ata: policy_pda.policy_fund_missing_ata,
                    timestamp: current_timestamp,
                },
            ),
        )
    } else {
        Ok(None)
    }
}

} // verus!
