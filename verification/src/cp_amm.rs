use vstd::prelude::*;
use vstd::string::StringSliceAdditionalSpecFns;
use crate::error::FeeRouterError;
use crate::pubkey::{lemma_pubkey_eq, Pubkey};

verus! {

/// What is read of a pool: its two mints, in the pool's order.
#[derive(Clone, Copy, Debug)]
pub struct Pool {
    pub token_a_mint: Pubkey,
    pub token_b_mint: Pubkey,
}

/// The program address that the given seeds derive under a program, with its
/// bump seed; `None` where the seeds derive none.
pub uninterp spec fn program_address(seeds: Seq<Seq<u8>>, program_id: Seq<u8>) -> Option<
    (Seq<u8>, u8),
>;

/// The bytes of each seed of a list.
pub open spec fn seed_bytes(seeds: Seq<&[u8]>) -> Seq<Seq<u8>> {
    Seq::new(seeds.len(), |i: int| seeds[i]@)
}

/// Calls `Pubkey::try_find_program_address` of `solana_program`. The
/// contract names its result: it depends on the seeds and the program
/// address alone.
#[verifier::external_body]
pub(crate) fn try_find_program_address(seeds: &[&[u8]], program_id: &Pubkey) -> (found: Option<
    (Pubkey, u8),
>)
    ensures
        match found {
            Some((address, bump)) => program_address(seed_bytes(seeds@), program_id@) == Some(
                (address@, bump),
            ),
            None => program_address(seed_bytes(seeds@), program_id@) is None,
        },
{
    let id = anchor_lang::prelude::Pubkey::new_from_array(program_id.bytes);
    match anchor_lang::prelude::Pubkey::try_find_program_address(seeds, &id) {
        Some((address, bump)) => Some((Pubkey { bytes: address.to_bytes() }, bump)),
        None => None,
    }
}

/// The seeds of a vault's treasury.
pub fn treasury_seeds<'a>(vault_seed: &'a str, quote_mint: &'a Pubkey) -> (seeds: [&'a [u8]; 3])
    ensures
        seeds@[0]@ == vault_seed.spec_bytes(),
        seeds@[1]@ == "treasury".spec_bytes(),
        seeds@[2]@ == quote_mint@,
{
    [vault_seed.as_bytes(), "treasury".as_bytes(), quote_mint.bytes.as_slice()]
}

/// The treasury address of a vault under the program, with its bump seed;
/// `None` where the seeds derive no address (a vault seed of more than 32
/// bytes derives none).
pub fn derive_treasury_pda(vault_seed: &str, quote_mint: &Pubkey, program_id: &Pubkey) -> (found:
    Option<(Pubkey, u8)>)
    ensures
        match found {
            Some((address, bump)) => program_address(
                seq![vault_seed.spec_bytes(), "treasury".spec_bytes(), quote_mint@],
                program_id@,
            ) == Some((address@, bump)),
            None => program_address(
                seq![vault_seed.spec_bytes(), "treasury".spec_bytes(), quote_mint@],
                program_id@,
            ) is None,
        },
{
    let seeds = treasury_seeds(vault_seed, quote_mint);
    let chunks = seeds.as_slice();
    assert(seed_bytes(chunks@) =~~= seq![
        vault_seed.spec_bytes(),
        "treasury".spec_bytes(),
        quote_mint@,
    ]);
    try_find_program_address(chunks, program_id)
}

/// The address from which the pool program emits its events, with its bump
/// seed.
pub open spec fn event_authority(cp_amm_program_id: Pubkey) -> Option<(Seq<u8>, u8)> {
    program_address(seq!["__event_authority".spec_bytes()], cp_amm_program_id@)
}

/// Whether `address` is the event authority of the pool program.
pub open spec fn is_event_authority(address: Pubkey, cp_amm_program_id: Pubkey) -> bool {
    event_authority(cp_amm_program_id) matches Some((derived, _)) && derived == address@
}

/// Derives the event authority of the pool program.
pub fn derive_event_authority(cp_amm_program_id: &Pubkey) -> (found: Option<(Pubkey, u8)>)
    ensures
        match found {
            Some((address, bump)) => event_authority(*cp_amm_program_id) == Some((address@, bump)),
            None => event_authority(*cp_amm_program_id) is None,
        },
{
    let seeds: [&[u8]; 1] = ["__event_authority".as_bytes()];
    let chunks = seeds.as_slice();
    assert(seed_bytes(chunks@) =~~= seq!["__event_authority".spec_bytes()]);
    try_find_program_address(chunks, cp_amm_program_id)
}

/// Accepts `actual` when it is the derived address.
pub fn check_derived_address(actual: &Pubkey, derived: &Option<(Pubkey, u8)>) -> (result: Result<
    (),
    FeeRouterError,
>)
    ensures
        (derived matches Some((address, _)) && address == *actual) ==> result == Ok::<
            (),
            FeeRouterError,
        >(()),
        !(derived matches Some((address, _)) && address == *actual) ==> result == Err::<
            (),
            FeeRouterError,
        >(FeeRouterError::InvalidCpAmmPda),
{
    match derived {
        Some((address, _)) => {
            if *address == *actual {
                Ok(())
            } else {
                Err(FeeRouterError::InvalidCpAmmPda)
            }
        },
        None => Err(FeeRouterError::InvalidCpAmmPda),
    }
}

/// Accepts `actual` when it is the event authority of the pool program.
pub fn validate_event_authority(actual: &Pubkey, cp_amm_program_id: &Pubkey) -> (result: Result<
    (),
    FeeRouterError,
>)
    ensures
        is_event_authority(*actual, *cp_amm_program_id) ==> result == Ok::<(), FeeRouterError>(()),
        !is_event_authority(*actual, *cp_amm_program_id) ==> result == Err::<(), FeeRouterError>(
            FeeRouterError::InvalidCpAmmPda,
        ),
{
    let derived = derive_event_authority(cp_amm_program_id);
    proof {
        if let Some((address, _)) = derived {
            lemma_pubkey_eq(address, *actual);
        }
    }
    check_derived_address(actual, &derived)
}

/// Whether a position with this tick range in this pool accrues fees in the
/// quote token alone. The range must not be empty, the quote mint must be
/// one of the pool's two; with the quote as token B the range must lie
/// above zero, with the quote as token A below.
pub open spec fn quote_only_position(
    pool: Pool,
    tick_lower: i32,
    tick_upper: i32,
    quote_mint: Pubkey,
) -> Result<(), FeeRouterError> {
    if tick_lower >= tick_upper {
        Err(FeeRouterError::InvalidTickRange)
    } else if pool.token_a_mint != quote_mint && pool.token_b_mint != quote_mint {
        Err(FeeRouterError::InvalidQuoteMint)
    } else if pool.token_b_mint == quote_mint {
        if tick_lower > 0 {
            Ok(())
        } else {
            Err(FeeRouterError::PositionNotQuoteOnly)
        }
    } else {
        if tick_upper < 0 {
            Ok(())
        } else {
            Err(FeeRouterError::PositionNotQuoteOnly)
        }
    }
}

/// Checks that a position with this tick range accrues quote fees alone.
pub fn validate_quote_only_position(
    pool: &Pool,
    tick_lower: i32,
    tick_upper: i32,
    quote_mint: &Pubkey,
) -> (result: Result<(), FeeRouterError>)
    ensures
        result == quote_only_position(*pool, tick_lower, tick_upper, *quote_mint),
{
    if tick_lower >= tick_upper {
        return Err(FeeRouterError::InvalidTickRange);
    }
    let is_token_a_quote = pool.token_a_mint == *quote_mint;
    let is_token_b_quote = pool.token_b_mint == *quote_mint;
    if !(is_token_a_quote || is_token_b_quote) {
        return Err(FeeRouterError::InvalidQuoteMint);
    }
    if is_token_b_quote {
        if !(tick_lower > 0) {
            return Err(FeeRouterError::PositionNotQuoteOnly);
        }
    } else {
        if !(tick_upper < 0) {
            return Err(FeeRouterError::PositionNotQuoteOnly);
        }
    }
    Ok(())
}

} // verus!
