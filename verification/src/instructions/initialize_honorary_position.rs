use vstd::prelude::*;
use crate::cp_amm::{
    check_derived_address, program_address, quote_only_position, seed_bytes,
    try_find_program_address, validate_event_authority, validate_quote_only_position,
    is_event_authority, Pool,
};
use crate::error::FeeRouterError;
use crate::events::{HonoraryPositionInitialized, PreflightVerificationCompleted};
use crate::pubkey::{lemma_pubkey_eq, Pubkey};
use crate::state::{InvestorFeePositionOwnerPda, PolicyPda};

verus! {

/// What the creation of the honorary position reads of its accounts.
#[derive(Clone, Copy, Debug)]
pub struct InitializeHonoraryPosition {
    /// The address of the owner record that is created.
    pub position_owner_pda: Pubkey,
    /// The program that was passed as the pool program.
    pub cp_amm_program: Pubkey,
    /// The account that was passed as the pool program's event authority.
    pub cp_amm_event_authority: Pubkey,
    /// The address of the pool.
    pub pool: Pubkey,
    /// The two mints of the pool.
    pub pool_state: Pool,
    /// The mint of the position's token.
    pub position_mint: Pubkey,
    /// The account that will hold the position's token.
    pub position_token_account: Pubkey,
    /// The position that will be created.
    pub position: Pubkey,
}

/// What is known of the pool program: its address and the seed prefixes of
/// its position addresses.
#[derive(Clone, Debug)]
pub struct CpAmmProgram {
    pub program_id: Pubkey,
    pub position_prefix: Vec<u8>,
    pub position_nft_account_prefix: Vec<u8>,
}

/// Whether `address` is the one that the pool program derives from a prefix
/// and the mint of the position's token.
pub open spec fn is_position_address(
    address: Pubkey,
    prefix: Seq<u8>,
    position_mint: Pubkey,
    program_id: Pubkey,
) -> bool {
    program_address(seq![prefix, position_mint@], program_id@) matches Some((derived, _))
        && derived == address@
}

/// The checks of the creation of the honorary position, in order: the
/// quote mint and the pool must be those of the policy, the tick range must
/// not be empty, the pool program must be the expected one, the position
/// must accrue quote fees alone, and the position, its token account and
/// the event authority must be the derived addresses.
pub open spec fn position_checked(
    policy: PolicyPda,
    accounts: InitializeHonoraryPosition,
    cp_amm: CpAmmProgram,
    tick_lower: i32,
    tick_upper: i32,
    quote_mint: Pubkey,
) -> Result<(), FeeRouterError> {
    if quote_mint != policy.quote_mint {
        Err(FeeRouterError::InvalidPoolOrder)
    } else if accounts.pool != policy.pool_pubkey {
        Err(FeeRouterError::MissingRequiredInput)
    } else if tick_lower >= tick_upper {
        Err(FeeRouterError::InvalidTickRange)
    } else if accounts.cp_amm_program != cp_amm.program_id {
        Err(FeeRouterError::InvalidCpAmmProgram)
    } else if quote_only_position(accounts.pool_state, tick_lower, tick_upper, quote_mint) is Err {
        quote_only_position(accounts.pool_state, tick_lower, tick_upper, quote_mint)
    } else if !is_position_address(
        accounts.position,
        cp_amm.position_prefix@,
        accounts.position_mint,
        cp_amm.program_id,
    ) || !is_position_address(
        accounts.position_token_account,
        cp_amm.position_nft_account_prefix@,
        accounts.position_mint,
        cp_amm.program_id,
    ) || !is_event_authority(accounts.cp_amm_event_authority, cp_amm.program_id) {
        Err(FeeRouterError::InvalidCpAmmPda)
    } else {
        Ok(())
    }
}

/// Accepts `actual` when the pool program derives it from the prefix and
/// the mint of the position's token.
pub fn validate_position_address(
    actual: &Pubkey,
    prefix: &Vec<u8>,
    position_mint: &Pubkey,
    program_id: &Pubkey,
) -> (result: Result<(), FeeRouterError>)
    ensures
        is_position_address(*actual, prefix@, *position_mint, *program_id) ==> result == Ok::<
            (),
            FeeRouterError,
        >(()),
        !is_position_address(*actual, prefix@, *position_mint, *program_id) ==> result == Err::<
            (),
            FeeRouterError,
        >(FeeRouterError::InvalidCpAmmPda),
{
    let seeds: [&[u8]; 2] = [prefix.as_slice(), position_mint.bytes.as_slice()];
    let chunks = seeds.as_slice();
    assert(seed_bytes(chunks@) =~~= seq![prefix@, position_mint@]);
    let derived = try_find_program_address(chunks, program_id);
    proof {
        if let Some((address, _)) = derived {
            lemma_pubkey_eq(address, *actual);
        }
    }
    check_derived_address(actual, &derived)
}

/// Checks the creation of the honorary position and makes the owner record
/// and the two events of it. The position itself is then created by the
/// pool program.
pub fn handler(
    policy_pda: &PolicyPda,
    accounts: &InitializeHonoraryPosition,
    cp_amm: &CpAmmProgram,
    vault_seed: String,
    tick_lower: i32,
    tick_upper: i32,
    quote_mint: Pubkey,
    current_timestamp: u64,
) -> (result: Result<
    (InvestorFeePositionOwnerPda, PreflightVerificationCompleted, HonoraryPositionInitialized),
    FeeRouterError,
>)
    ensures
        match result {
            Ok((owner, preflight, initialized)) => {
                &&& position_checked(
                    *policy_pda,
                    *accounts,
                    *cp_amm,
                    tick_lower,
                    tick_upper,
                    quote_mint,
                ) is Ok
                &&& owner == (InvestorFeePositionOwnerPda {
                    vault_seed,
                    position_pubkey: accounts.position,
                    pool_pubkey: accounts.pool,
                    quote_mint,
                    tick_lower,
                    tick_upper,
                    verified_quote_only: true,
                    created_at: current_timestamp,
                })
                &&& preflight == (PreflightVerificationCompleted {
                    pool: accounts.pool,
                    quote_mint,
                    tick_lower,
                    tick_upper,
                    analytical_verified: true,
                    simulation_verified: false,
                    timestamp: current_timestamp,
                })
                &&& initialized == (HonoraryPositionInitialized {
                    pda: accounts.position_owner_pda,
                    position: accounts.position,
                    pool: accounts.pool,
                    quote_mint,
                    tick_lower,
                    tick_upper,
                    timestamp: current_timestamp,
                })
            },
            Err(e) => position_checked(
                *policy_pda,
                *accounts,
                *cp_amm,
                tick_lower,
                tick_upper,
                quote_mint,
            ) == Err::<(), FeeRouterError>(e),
        },
{
    if quote_mint != policy_pda.quote_mint {
        return Err(FeeRouterError::InvalidPoolOrder);
    }
    if accounts.pool != policy_pda.pool_pubkey {
        return Err(FeeRouterError::MissingRequiredInput);
    }
    if tick_lower >= tick_upper {
        return Err(FeeRouterError::InvalidTickRange);
    }
    if accounts.cp_amm_program != cp_amm.program_id {
        return Err(FeeRouterError::InvalidCpAmmProgram);
    }
    match validate_quote_only_position(&accounts.pool_state, tick_lower, tick_upper, &quote_mint) {
        Ok(()) => {},
        Err(e) => {
            return Err(e);
        },
    }
    match validate_position_address(
        &accounts.position,
        &cp_amm.position_prefix,
        &accounts.position_mint,
        &cp_amm.program_id,
    ) {
        Ok(()) => {},
        Err(e) => {
            return Err(e);
        },
    }
    match validate_position_address(
        &accounts.position_token_account,
        &cp_amm.position_nft_account_prefix,
        &accounts.position_mint,
        &cp_amm.program_id,
    ) {
        Ok(()) => {},
        Err(e) => {
            return Err(e);
        },
    }
    match validate_event_authority(&accounts.cp_amm_event_authority, &cp_amm.program_id) {
        Ok(()) => {},
        Err(e) => {
            return Err(e);
        },
    }
    let owner = InvestorFeePositionOwnerPda {
        vault_seed,
        position_pubkey: accounts.position,
        pool_pubkey: accounts.pool,
        quote_mint,
        tick_lower,
        tick_upper,
        verified_quote_only: true,
        created_at: current_timestamp,
    };
    let preflight = PreflightVerificationCompleted {
        pool: accounts.pool,
        quote_mint,
        tick_lower,
        tick_upper,
        analytical_verified: true,
        simulation_verified: false,
        timestamp: current_timestamp,
    };
    let initialized = HonoraryPositionInitialized {
        pda: accounts.position_owner_pda,
        position: accounts.position,
        pool: accounts.pool,
        quote_mint,
        tick_lower,
        tick_upper,
        timestamp: current_timestamp,
    };
    Ok((owner, preflight, initialized))
}

} // verus!
