use meteor_route_fee_router::cp_amm::{
    check_derived_address, derive_event_authority, derive_treasury_pda, treasury_seeds,
    validate_event_authority, validate_quote_only_position, Pool,
};
use meteor_route_fee_router::error::FeeRouterError;
use meteor_route_fee_router::pubkey::Pubkey;
use meteor_route_fee_router::state::{InvestorFeePositionOwnerPda, PolicyPda, ProgressPda};

fn key(byte: u8) -> Pubkey {
    Pubkey { bytes: [byte; 32] }
}

fn outside(key: &Pubkey) -> anchor_lang::prelude::Pubkey {
    anchor_lang::prelude::Pubkey::new_from_array(key.bytes)
}

#[test]
fn keys_compare_by_their_bytes() {
    assert_eq!(key(1), key(1));
    assert_ne!(key(1), key(2));
    let mut almost = key(1);
    almost.bytes[31] = 0;
    assert_ne!(key(1), almost);
    assert_eq!(Pubkey::new_from_array([5; 32]).to_bytes(), [5; 32]);
}

#[test]
fn seeds_are_the_vault_seed_and_a_label() {
    assert_eq!(PolicyPda::seeds("vault"), [&b"vault"[..], &b"policy"[..]]);
    assert_eq!(ProgressPda::seeds("vault"), [&b"vault"[..], &b"progress"[..]]);
    assert_eq!(
        InvestorFeePositionOwnerPda::seeds("v"),
        [&b"v"[..], &b"investor_fee_pos_owner"[..]]
    );
    let mint = key(9);
    assert_eq!(treasury_seeds("vault", &mint), [&b"vault"[..], &b"treasury"[..], &[9u8; 32][..]]);
}

#[test]
fn treasury_address_is_the_derived_one() {
    let mint = key(9);
    let program = key(42);
    let (expected, expected_bump) = anchor_lang::prelude::Pubkey::find_program_address(
        &[b"vault", b"treasury", &mint.bytes],
        &outside(&program),
    );
    let (address, bump) = derive_treasury_pda("vault", &mint, &program).unwrap();
    assert_eq!(address.bytes, expected.to_bytes());
    assert_eq!(bump, expected_bump);
    assert_ne!(address, program);
    assert_ne!(address, mint);
    let (other, _) = derive_treasury_pda("vault2", &mint, &program).unwrap();
    assert_ne!(other, address);
}

#[test]
fn treasury_address_needs_a_short_vault_seed() {
    let long = "x".repeat(33);
    assert!(derive_treasury_pda(&long, &key(9), &key(42)).is_none());
    let longest = "x".repeat(32);
    assert!(derive_treasury_pda(&longest, &key(9), &key(42)).is_some());
}

#[test]
fn event_authority_is_the_derived_one() {
    let program = key(42);
    let (expected, expected_bump) = anchor_lang::prelude::Pubkey::find_program_address(
        &[b"__event_authority"],
        &outside(&program),
    );
    let (address, bump) = derive_event_authority(&program).unwrap();
    assert_eq!(address.bytes, expected.to_bytes());
    assert_eq!(bump, expected_bump);
    assert_eq!(validate_event_authority(&address, &program), Ok(()));
    assert_eq!(
        validate_event_authority(&program, &program),
        Err(FeeRouterError::InvalidCpAmmPda)
    );
    assert_eq!(
        validate_event_authority(&address, &key(43)),
        Err(FeeRouterError::InvalidCpAmmPda)
    );
}

#[test]
fn derived_address_must_match() {
    assert_eq!(check_derived_address(&key(1), &Some((key(1), 255))), Ok(()));
    assert_eq!(check_derived_address(&key(1), &Some((key(1), 0))), Ok(()));
    assert_eq!(
        check_derived_address(&key(1), &Some((key(2), 255))),
        Err(FeeRouterError::InvalidCpAmmPda)
    );
    assert_eq!(check_derived_address(&key(1), &None), Err(FeeRouterError::InvalidCpAmmPda));
}

#[test]
fn quote_as_token_b_needs_a_range_above_zero() {
    let pool = Pool { token_a_mint: key(1), token_b_mint: key(2) };
    assert_eq!(validate_quote_only_position(&pool, 1, 2, &key(2)), Ok(()));
    assert_eq!(
        validate_quote_only_position(&pool, 0, 2, &key(2)),
        Err(FeeRouterError::PositionNotQuoteOnly)
    );
    assert_eq!(
        validate_quote_only_position(&pool, -5, 2, &key(2)),
        Err(FeeRouterError::PositionNotQuoteOnly)
    );
}

#[test]
fn quote_as_token_a_needs_a_range_below_zero() {
    let pool = Pool { token_a_mint: key(1), token_b_mint: key(2) };
    assert_eq!(validate_quote_only_position(&pool, -10, -1, &key(1)), Ok(()));
    assert_eq!(
        validate_quote_only_position(&pool, -10, 0, &key(1)),
        Err(FeeRouterError::PositionNotQuoteOnly)
    );
    assert_eq!(
        validate_quote_only_position(&pool, 1, 5, &key(1)),
        Err(FeeRouterError::PositionNotQuoteOnly)
    );
}

#[test]
fn tick_range_and_quote_mint_are_checked_first() {
    let pool = Pool { token_a_mint: key(1), token_b_mint: key(2) };
    assert_eq!(
        validate_quote_only_position(&pool, 2, 2, &key(2)),
        Err(FeeRouterError::InvalidTickRange)
    );
    assert_eq!(
        validate_quote_only_position(&pool, 3, 2, &key(7)),
        Err(FeeRouterError::InvalidTickRange)
    );
    assert_eq!(
        validate_quote_only_position(&pool, 1, 2, &key(7)),
        Err(FeeRouterError::InvalidQuoteMint)
    );
}
