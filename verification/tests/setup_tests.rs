use meteor_route_fee_router::cp_amm::Pool;
use meteor_route_fee_router::error::FeeRouterError;
use meteor_route_fee_router::instructions::initialize_honorary_position::{
    self, validate_position_address, CpAmmProgram, InitializeHonoraryPosition,
};
use meteor_route_fee_router::instructions::initialize_policy::{self, InitializePolicy};
use meteor_route_fee_router::instructions::{initialize_progress, update_policy};
use meteor_route_fee_router::pubkey::Pubkey;
use meteor_route_fee_router::state::{PolicyPda, ProgressPda};

fn key(byte: u8) -> Pubkey {
    Pubkey { bytes: [byte; 32] }
}

fn policy_accounts() -> InitializePolicy {
    InitializePolicy { authority: key(1), quote_mint: key(10), base_mint: key(11), pool: key(12) }
}

fn new_policy() -> PolicyPda {
    initialize_policy::handler(&policy_accounts(), "vault".to_string(), 9000, 800, 5, true, 1000, 77)
        .unwrap()
        .0
}

fn cp_amm() -> CpAmmProgram {
    CpAmmProgram {
        program_id: key(42),
        position_prefix: b"position".to_vec(),
        position_nft_account_prefix: b"position_nft_account".to_vec(),
    }
}

fn derived(seeds: &[&[u8]], program: &Pubkey) -> Pubkey {
    let id = anchor_lang::prelude::Pubkey::new_from_array(program.bytes);
    let (address, _) = anchor_lang::prelude::Pubkey::find_program_address(seeds, &id);
    Pubkey { bytes: address.to_bytes() }
}

fn position_accounts() -> InitializeHonoraryPosition {
    let program = key(42);
    let mint = key(50);
    InitializeHonoraryPosition {
        position_owner_pda: key(60),
        cp_amm_program: program,
        cp_amm_event_authority: derived(&[b"__event_authority"], &program),
        pool: key(12),
        pool_state: Pool { token_a_mint: key(11), token_b_mint: key(10) },
        position_mint: mint,
        position_token_account: derived(&[b"position_nft_account", &mint.bytes], &program),
        position: derived(&[b"position", &mint.bytes], &program),
    }
}

#[test]
fn policy_is_created_with_the_given_values() {
    let (policy, event) = initialize_policy::handler(
        &policy_accounts(),
        "vault".to_string(),
        9000,
        800,
        5,
        true,
        1000,
        77,
    )
    .unwrap();
    assert_eq!(policy.vault_seed, "vault");
    assert_eq!(policy.authority, key(1));
    assert_eq!(policy.investor_fee_share_bps, 9000);
    assert_eq!(policy.daily_cap_quote_lamports, 800);
    assert_eq!(policy.min_payout_lamports, 5);
    assert!(policy.policy_fund_missing_ata);
    assert_eq!(policy.y0_total_allocation, 1000);
    assert_eq!(policy.quote_mint, key(10));
    assert_eq!(policy.base_mint, key(11));
    assert_eq!(policy.pool_pubkey, key(12));
    assert_eq!(policy.created_at, 77);
    assert_eq!(policy.updated_at, 77);
    assert_eq!(event.vault_seed, "vault");
    assert_eq!(event.investor_fee_share_bps, 9000);
    assert_eq!(event.daily_cap_quote_lamports, 800);
    assert_eq!(event.min_payout_lamports, 5);
    assert!(event.policy_fund_missing_ata);
    assert_eq!(event.timestamp, 77);
}

#[test]
fn policy_share_is_at_most_10000() {
    let result =
        initialize_policy::handler(&policy_accounts(), "v".to_string(), 10_001, 0, 0, false, 1, 0);
    assert_eq!(result.err(), Some(FeeRouterError::InvalidFeeShareBps));
    let result =
        initialize_policy::handler(&policy_accounts(), "v".to_string(), 10_000, 0, 0, false, 1, 0);
    assert!(result.is_ok());
}

#[test]
fn policy_mints_must_differ() {
    let mut accounts = policy_accounts();
    accounts.base_mint = accounts.quote_mint;
    let result = initialize_policy::handler(&accounts, "v".to_string(), 9000, 0, 0, false, 1, 0);
    assert_eq!(result.err(), Some(FeeRouterError::InvalidPoolOrder));
    let result = initialize_policy::handler(&accounts, "v".to_string(), 10_001, 0, 0, false, 1, 0);
    assert_eq!(result.err(), Some(FeeRouterError::InvalidFeeShareBps));
}

#[test]
fn progress_starts_at_zero() {
    let p: ProgressPda = initialize_progress::handler("vault".to_string(), 123);
    assert_eq!(p.vault_seed, "vault");
    assert_eq!(p.last_distribution_ts, 0);
    assert_eq!(p.day_epoch, 0);
    assert_eq!(p.cumulative_distributed_today, 0);
    assert_eq!(p.carry_over_lamports, 0);
    assert_eq!(p.pagination_cursor, 0);
    assert!(!p.page_in_progress_flag);
    assert!(!p.day_finalized_flag);
    assert_eq!(p.total_pages_expected, 0);
    assert_eq!(p.pages_processed_today, 0);
    assert_eq!(p.last_claimed_quote, 0);
    assert_eq!(p.last_claimed_base, 0);
    assert_eq!(p.day_total_locked, 0);
    assert_eq!(p.day_investor_pool_target, 0);
    assert_eq!(p.day_investor_distributed, 0);
    assert_eq!(p.day_creator_remainder_target, 0);
    assert_eq!(p.created_at, 123);
    assert_eq!(p.updated_at, 123);
}

#[test]
fn progress_day_arithmetic() {
    let mut p = initialize_progress::handler("vault".to_string(), 0);
    assert!(!p.is_new_day(86_399));
    assert!(p.is_new_day(86_400));
    assert!(p.can_start_new_day(0));
    p.last_distribution_ts = 1000;
    assert!(!p.can_start_new_day(999));
    assert!(!p.can_start_new_day(1000 + 86_399));
    assert!(p.can_start_new_day(1000 + 86_400));
    p.carry_over_lamports = 9;
    p.total_pages_expected = 4;
    p.pagination_cursor = 3;
    p.cumulative_distributed_today = 8;
    p.day_finalized_flag = true;
    p.start_new_day(5 * 86_400 + 17);
    assert_eq!(p.day_epoch, 5);
    assert_eq!(p.updated_at, 5 * 86_400 + 17);
    assert_eq!(p.pagination_cursor, 0);
    assert_eq!(p.cumulative_distributed_today, 0);
    assert!(!p.day_finalized_flag);
    assert_eq!(p.carry_over_lamports, 9);
    assert_eq!(p.total_pages_expected, 4);
    assert_eq!(p.last_distribution_ts, 1000);
    assert!(!p.is_new_day(5 * 86_400 + 86_399));
    p.pagination_cursor = 2;
    p.finalize_day(6 * 86_400, 1, 1);
    assert!(p.day_finalized_flag);
    assert_eq!(p.last_distribution_ts, 6 * 86_400);
    assert_eq!(p.pagination_cursor, 0);
    assert_eq!(p.updated_at, 6 * 86_400);
}

#[test]
fn investor_distribution_reports_overflow() {
    let mut p = initialize_progress::handler("vault".to_string(), 0);
    p.add_investor_distribution(u64::MAX).unwrap();
    assert_eq!(p.add_investor_distribution(1), Err(FeeRouterError::Overflow));
    assert_eq!(p.day_investor_distributed, u64::MAX);
    assert_eq!(p.add_investor_distribution(0), Ok(()));
}

#[test]
fn progress_clone_keeps_every_field() {
    let mut p = initialize_progress::handler("vault".to_string(), 3);
    p.carry_over_lamports = 5;
    p.day_investor_pool_target = 6;
    p.last_claimed_base = 7;
    assert_eq!(format!("{:?}", p.clone()), format!("{:?}", p));
}

#[test]
fn update_replaces_the_given_values() {
    let mut policy = new_policy();
    let event = update_policy::handler(
        &mut policy,
        "vault".to_string(),
        Some(5000),
        None,
        Some(9),
        None,
        500,
    )
    .unwrap()
    .unwrap();
    assert_eq!(policy.investor_fee_share_bps, 5000);
    assert_eq!(policy.daily_cap_quote_lamports, 800);
    assert_eq!(policy.min_payout_lamports, 9);
    assert!(policy.policy_fund_missing_ata);
    assert_eq!(policy.updated_at, 500);
    assert_eq!(policy.created_at, 77);
    assert_eq!(event.vault_seed, "vault");
    assert_eq!(event.investor_fee_share_bps, 5000);
    assert_eq!(event.daily_cap_quote_lamports, 800);
    assert_eq!(event.min_payout_lamports, 9);
    assert!(event.policy_fund_missing_ata);
    assert_eq!(event.timestamp, 500);

    let event =
        update_policy::handler(&mut policy, "vault".to_string(), None, Some(0), None, Some(false), 600)
            .unwrap()
            .unwrap();
    assert_eq!(policy.daily_cap_quote_lamports, 0);
    assert!(!policy.policy_fund_missing_ata);
    assert_eq!(policy.updated_at, 600);
    assert_eq!(event.investor_fee_share_bps, 5000);
}

#[test]
fn update_without_values_changes_nothing() {
    let mut policy = new_policy();
    let before = format!("{:?}", policy);
    let event =
        update_policy::handler(&mut policy, "vault".to_string(), None, None, None, None, 500)
            .unwrap();
    assert!(event.is_none());
    assert_eq!(format!("{:?}", policy), before);
}

#[test]
fn update_refuses_a_share_above_10000() {
    let mut policy = new_policy();
    let before = format!("{:?}", policy);
    let result = update_policy::handler(
        &mut policy,
        "vault".to_string(),
        Some(10_001),
        Some(1),
        Some(1),
        Some(false),
        500,
    );
    assert_eq!(result.err(), Some(FeeRouterError::InvalidFeeShareBps));
    assert_eq!(format!("{:?}", policy), before);
}

#[test]
fn honorary_position_is_recorded() {
    let policy = new_policy();
    let accounts = position_accounts();
    let (owner, preflight, initialized) = initialize_honorary_position::handler(
        &policy,
        &accounts,
        &cp_amm(),
        "vault".to_string(),
        10,
        20,
        key(10),
        99,
    )
    .unwrap();
    assert_eq!(owner.vault_seed, "vault");
    assert_eq!(owner.position_pubkey, accounts.position);
    assert_eq!(owner.pool_pubkey, key(12));
    assert_eq!(owner.quote_mint, key(10));
    assert_eq!((owner.tick_lower, owner.tick_upper), (10, 20));
    assert!(owner.verified_quote_only);
    assert_eq!(owner.created_at, 99);
    assert_eq!(preflight.pool, key(12));
    assert_eq!(preflight.quote_mint, key(10));
    assert_eq!((preflight.tick_lower, preflight.tick_upper), (10, 20));
    assert!(preflight.analytical_verified);
    assert!(!preflight.simulation_verified);
    assert_eq!(preflight.timestamp, 99);
    assert_eq!(initialized.pda, key(60));
    assert_eq!(initialized.position, accounts.position);
    assert_eq!(initialized.pool, key(12));
    assert_eq!(initialized.quote_mint, key(10));
    assert_eq!(initialized.timestamp, 99);
}

fn position_error(
    accounts: &InitializeHonoraryPosition,
    tick_lower: i32,
    tick_upper: i32,
    quote_mint: Pubkey,
) -> Option<FeeRouterError> {
    initialize_honorary_position::handler(
        &new_policy(),
        accounts,
        &cp_amm(),
        "vault".to_string(),
        tick_lower,
        tick_upper,
        quote_mint,
        99,
    )
    .err()
}

#[test]
fn honorary_position_checks_come_in_order() {
    let good = position_accounts();
    assert_eq!(position_error(&good, 20, 10, key(9)), Some(FeeRouterError::InvalidPoolOrder));
    let mut other_pool = good;
    other_pool.pool = key(13);
    assert_eq!(
        position_error(&other_pool, 20, 10, key(10)),
        Some(FeeRouterError::MissingRequiredInput)
    );
    assert_eq!(position_error(&good, 20, 10, key(10)), Some(FeeRouterError::InvalidTickRange));
    let mut other_program = good;
    other_program.cp_amm_program = key(43);
    assert_eq!(
        position_error(&other_program, 0, 10, key(10)),
        Some(FeeRouterError::InvalidCpAmmProgram)
    );
    assert_eq!(position_error(&good, 0, 10, key(10)), Some(FeeRouterError::PositionNotQuoteOnly));
    let mut stranger = good;
    stranger.pool_state = Pool { token_a_mint: key(1), token_b_mint: key(2) };
    assert_eq!(position_error(&stranger, 1, 10, key(10)), Some(FeeRouterError::InvalidQuoteMint));
}

#[test]
fn honorary_position_addresses_must_be_derived() {
    let good = position_accounts();
    let mut wrong_position = good;
    wrong_position.position = key(70);
    assert_eq!(
        position_error(&wrong_position, 1, 10, key(10)),
        Some(FeeRouterError::InvalidCpAmmPda)
    );
    let mut wrong_token_account = good;
    wrong_token_account.position_token_account = good.position;
    assert_eq!(
        position_error(&wrong_token_account, 1, 10, key(10)),
        Some(FeeRouterError::InvalidCpAmmPda)
    );
    let mut wrong_authority = good;
    wrong_authority.cp_amm_event_authority = key(71);
    assert_eq!(
        position_error(&wrong_authority, 1, 10, key(10)),
        Some(FeeRouterError::InvalidCpAmmPda)
    );
}

#[test]
fn position_address_is_derived_from_prefix_and_mint() {
    let good = position_accounts();
    let program = key(42);
    assert_eq!(
        validate_position_address(&good.position, &b"position".to_vec(), &key(50), &program),
        Ok(())
    );
    assert_eq!(
        validate_position_address(&good.position, &b"position".to_vec(), &key(51), &program),
        Err(FeeRouterError::InvalidCpAmmPda)
    );
    assert_eq!(
        validate_position_address(&good.position, &vec![7u8; 33], &key(50), &program),
        Err(FeeRouterError::InvalidCpAmmPda)
    );
}
