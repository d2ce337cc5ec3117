use meteor_route_fee_router::error::FeeRouterError;
use meteor_route_fee_router::lock_accounting::{
    calculate_total_locked_from_streamflow, read_locked_amount, RemainingAccount,
};
use meteor_route_fee_router::page::{InvestorData, InvestorPage};
use meteor_route_fee_router::pubkey::Pubkey;
use meteor_route_fee_router::streamflow::{
    calculate_locked_amount, parse_streamflow_account, validate_stream_for_investor,
    StreamflowStream, STREAMFLOW_PROGRAM_ID,
};
use std::str::FromStr;

fn key(byte: u8) -> Pubkey {
    Pubkey { bytes: [byte; 32] }
}

fn program() -> Pubkey {
    Pubkey { bytes: STREAMFLOW_PROGRAM_ID }
}

fn stream_data(deposited: u64, withdrawn: u64, recipient: &Pubkey) -> Vec<u8> {
    let mut data = vec![0xAAu8; 8];
    data.extend_from_slice(&deposited.to_le_bytes());
    data.extend_from_slice(&withdrawn.to_le_bytes());
    data.extend_from_slice(&recipient.bytes);
    data
}

fn stream_account(n: u8, deposited: u64, withdrawn: u64) -> (RemainingAccount, RemainingAccount, InvestorData) {
    let investor = InvestorData { stream: key(n), investor: key(n + 100) };
    let stream = RemainingAccount {
        key: investor.stream,
        owner: program(),
        data: stream_data(deposited, withdrawn, &investor.investor),
    };
    let ata = RemainingAccount { key: key(n + 200), owner: key(0), data: vec![] };
    (stream, ata, investor)
}

#[test]
fn stream_program_id_is_the_known_address() {
    let expected =
        anchor_lang::prelude::Pubkey::from_str("strmRqUCoQUgGUan5YhzUZa6KqdzwX5L6FpUxfmKg5m")
            .unwrap();
    assert_eq!(STREAMFLOW_PROGRAM_ID, expected.to_bytes());
}

#[test]
fn parse_reads_amounts_and_recipient() {
    let data = stream_data(0x0102_0304_0506_0708, 500, &key(7));
    let stream = parse_streamflow_account(&data).unwrap();
    assert_eq!(stream.deposited, 0x0102_0304_0506_0708);
    assert_eq!(stream.withdrawn, 500);
    assert_eq!(stream.recipient, key(7));
}

#[test]
fn parse_refuses_short_and_long_accounts() {
    let data = stream_data(1, 0, &key(7));
    assert!(matches!(
        parse_streamflow_account(&data[..55]),
        Err(FeeRouterError::MissingRequiredInput)
    ));
    assert!(matches!(
        parse_streamflow_account(&data[..7]),
        Err(FeeRouterError::MissingRequiredInput)
    ));
    assert!(matches!(parse_streamflow_account(&[]), Err(FeeRouterError::MissingRequiredInput)));
    let mut long = data.clone();
    long.push(0);
    assert!(matches!(
        parse_streamflow_account(&long),
        Err(FeeRouterError::MissingRequiredInput)
    ));
}

#[test]
fn locked_is_deposited_less_withdrawn() {
    let stream = StreamflowStream { deposited: 1000, withdrawn: 400, recipient: key(1) };
    assert_eq!(calculate_locked_amount(&stream), Ok(600));
    let drained = StreamflowStream { deposited: 1000, withdrawn: 1000, recipient: key(1) };
    assert_eq!(calculate_locked_amount(&drained), Ok(0));
    let corrupt = StreamflowStream { deposited: 1000, withdrawn: 1001, recipient: key(1) };
    assert_eq!(calculate_locked_amount(&corrupt), Err(FeeRouterError::Overflow));
}

#[test]
fn stream_must_name_the_investor() {
    let stream = StreamflowStream { deposited: 1, withdrawn: 0, recipient: key(1) };
    assert_eq!(validate_stream_for_investor(&stream, &key(1)), Ok(()));
    assert_eq!(
        validate_stream_for_investor(&stream, &key(2)),
        Err(FeeRouterError::MissingRequiredInput)
    );
}

#[test]
fn read_locked_amount_checks_the_account() {
    let (stream, _, investor) = stream_account(1, 1000, 250);
    assert_eq!(read_locked_amount(&stream, &investor, &program()), Ok(750));

    let mut wrong_key = stream.clone();
    wrong_key.key = key(9);
    assert_eq!(
        read_locked_amount(&wrong_key, &investor, &program()),
        Err(FeeRouterError::MissingRequiredInput)
    );
    let mut wrong_owner = stream.clone();
    wrong_owner.owner = key(9);
    assert_eq!(
        read_locked_amount(&wrong_owner, &investor, &program()),
        Err(FeeRouterError::MissingRequiredInput)
    );
    let mut short = stream.clone();
    short.data.pop();
    assert_eq!(
        read_locked_amount(&short, &investor, &program()),
        Err(FeeRouterError::MissingRequiredInput)
    );
    let other = InvestorData { stream: investor.stream, investor: key(9) };
    assert_eq!(
        read_locked_amount(&stream, &other, &program()),
        Err(FeeRouterError::MissingRequiredInput)
    );
    let (corrupt, _, corrupt_investor) = stream_account(2, 10, 11);
    assert_eq!(
        read_locked_amount(&corrupt, &corrupt_investor, &program()),
        Err(FeeRouterError::Overflow)
    );
}

#[test]
fn total_locked_sums_over_pages() {
    let (s1, a1, i1) = stream_account(1, 100, 40);
    let (s2, a2, i2) = stream_account(2, 50, 10);
    let (s3, a3, i3) = stream_account(3, u64::MAX, 0);
    let pages = vec![
        InvestorPage { page_index: 0, page_hash: [0; 32], investors: vec![i1, i2] },
        InvestorPage { page_index: 1, page_hash: [0; 32], investors: vec![] },
        InvestorPage { page_index: 2, page_hash: [0; 32], investors: vec![i3] },
    ];
    let accounts = vec![s1, a1, s2, a2, s3, a3];
    assert_eq!(
        calculate_total_locked_from_streamflow(&pages, &accounts, &program()),
        Ok(60 + 40 + u64::MAX as u128)
    );
    assert_eq!(calculate_total_locked_from_streamflow(&vec![], &vec![], &program()), Ok(0));
}

#[test]
fn total_locked_needs_two_accounts_for_each_investor() {
    let (s1, a1, i1) = stream_account(1, 100, 40);
    let (s2, _, i2) = stream_account(2, 50, 10);
    let pages =
        vec![InvestorPage { page_index: 0, page_hash: [0; 32], investors: vec![i1, i2] }];
    let accounts = vec![s1, a1, s2];
    assert_eq!(
        calculate_total_locked_from_streamflow(&pages, &accounts, &program()),
        Err(FeeRouterError::MissingRequiredInput)
    );
}

#[test]
fn total_locked_reports_the_first_bad_stream() {
    let (s1, a1, i1) = stream_account(1, 10, 11);
    let (mut s2, a2, i2) = stream_account(2, 50, 10);
    s2.owner = key(0);
    let pages =
        vec![InvestorPage { page_index: 0, page_hash: [0; 32], investors: vec![i1, i2] }];
    let accounts = vec![s1.clone(), a1.clone(), s2.clone(), a2.clone()];
    assert_eq!(
        calculate_total_locked_from_streamflow(&pages, &accounts, &program()),
        Err(FeeRouterError::Overflow)
    );
    let swapped =
        vec![InvestorPage { page_index: 0, page_hash: [0; 32], investors: vec![i2, i1] }];
    let accounts = vec![s2, a2, s1, a1];
    assert_eq!(
        calculate_total_locked_from_streamflow(&swapped, &accounts, &program()),
        Err(FeeRouterError::MissingRequiredInput)
    );
}
