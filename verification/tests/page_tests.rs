use meteor_route_fee_router::error::FeeRouterError;
use meteor_route_fee_router::hash::digests_equal;
use meteor_route_fee_router::page::{InvestorData, InvestorPage};
use meteor_route_fee_router::pagination::{check_page, validate_pages};
use meteor_route_fee_router::pubkey::Pubkey;

fn key(byte: u8) -> Pubkey {
    Pubkey { bytes: [byte; 32] }
}

fn hashed(page_index: u64, investors: Vec<InvestorData>) -> InvestorPage {
    let mut page = InvestorPage { page_index, page_hash: [0; 32], investors };
    page.page_hash = page.compute_hash();
    page
}

const EMPTY_PAGE_ZERO: [u8; 32] = [
    175, 85, 112, 245, 161, 129, 11, 122, 247, 140, 175, 75, 199, 10, 102, 15, 13, 245, 30, 66,
    186, 249, 29, 77, 229, 178, 50, 141, 224, 232, 61, 252,
];

const ONE_INVESTOR_PAGE_ZERO: [u8; 32] = [
    10, 160, 125, 35, 218, 235, 240, 176, 97, 231, 244, 221, 150, 144, 135, 151, 199, 226, 7, 140,
    200, 208, 171, 209, 114, 185, 179, 58, 135, 49, 20, 178,
];

const TWO_INVESTORS_PAGE_SEVEN: [u8; 32] = [
    130, 185, 154, 47, 107, 63, 120, 49, 203, 73, 1, 82, 49, 229, 80, 148, 193, 218, 0, 188, 82,
    28, 219, 89, 178, 85, 239, 214, 77, 156, 25, 229,
];

#[test]
fn preimage_is_index_then_investors() {
    let page = InvestorPage {
        page_index: 0x0102,
        page_hash: [0; 32],
        investors: vec![InvestorData { stream: key(1), investor: key(2) }],
    };
    let bytes = page.preimage();
    assert_eq!(bytes.len(), 8 + 64);
    assert_eq!(&bytes[..8], &[2, 1, 0, 0, 0, 0, 0, 0]);
    assert_eq!(&bytes[8..40], &[1u8; 32]);
    assert_eq!(&bytes[40..72], &[2u8; 32]);
}

#[test]
fn hash_of_empty_page_is_sha256_of_index() {
    let page = InvestorPage { page_index: 0, page_hash: EMPTY_PAGE_ZERO, investors: vec![] };
    assert_eq!(page.compute_hash(), EMPTY_PAGE_ZERO);
    assert!(page.verify_hash());
}

#[test]
fn hash_of_page_is_sha256_of_preimage() {
    let one = InvestorPage {
        page_index: 0,
        page_hash: ONE_INVESTOR_PAGE_ZERO,
        investors: vec![InvestorData { stream: key(1), investor: key(2) }],
    };
    assert_eq!(one.compute_hash(), ONE_INVESTOR_PAGE_ZERO);
    assert!(one.verify_hash());
    let two = InvestorPage {
        page_index: 7,
        page_hash: TWO_INVESTORS_PAGE_SEVEN,
        investors: vec![
            InvestorData { stream: key(1), investor: key(2) },
            InvestorData { stream: key(3), investor: key(4) },
        ],
    };
    assert_eq!(two.compute_hash(), TWO_INVESTORS_PAGE_SEVEN);
    assert!(two.verify_hash());
}

#[test]
fn hash_binds_the_order_of_investors() {
    let swapped = InvestorPage {
        page_index: 7,
        page_hash: TWO_INVESTORS_PAGE_SEVEN,
        investors: vec![
            InvestorData { stream: key(3), investor: key(4) },
            InvestorData { stream: key(1), investor: key(2) },
        ],
    };
    assert!(!swapped.verify_hash());
    let other_index = InvestorPage {
        page_index: 8,
        page_hash: TWO_INVESTORS_PAGE_SEVEN,
        investors: vec![
            InvestorData { stream: key(1), investor: key(2) },
            InvestorData { stream: key(3), investor: key(4) },
        ],
    };
    assert!(!other_index.verify_hash());
}

#[test]
fn digests_compare_bytewise() {
    let mut other = EMPTY_PAGE_ZERO;
    assert!(digests_equal(&EMPTY_PAGE_ZERO, &other));
    other[31] ^= 1;
    assert!(!digests_equal(&EMPTY_PAGE_ZERO, &other));
}

#[test]
fn check_page_accepts_the_expected_page() {
    assert_eq!(check_page(4, 4, &EMPTY_PAGE_ZERO, &EMPTY_PAGE_ZERO), Ok(5));
}

#[test]
fn check_page_refuses_wrong_index_and_wrong_hash() {
    assert_eq!(
        check_page(4, 3, &EMPTY_PAGE_ZERO, &EMPTY_PAGE_ZERO),
        Err(FeeRouterError::InvalidPaginationState)
    );
    assert_eq!(
        check_page(4, 4, &EMPTY_PAGE_ZERO, &ONE_INVESTOR_PAGE_ZERO),
        Err(FeeRouterError::InvalidPaginationState)
    );
}

#[test]
fn check_page_reports_overflow_of_the_cursor() {
    assert_eq!(
        check_page(u64::MAX, u64::MAX, &EMPTY_PAGE_ZERO, &EMPTY_PAGE_ZERO),
        Err(FeeRouterError::Overflow)
    );
}

#[test]
fn pages_must_continue_the_cursor() {
    let pages = vec![hashed(3, vec![]), hashed(4, vec![]), hashed(5, vec![])];
    assert_eq!(validate_pages(3, &pages), Ok(6));
    assert_eq!(validate_pages(2, &pages), Err(FeeRouterError::InvalidPaginationState));
    assert_eq!(validate_pages(4, &pages), Err(FeeRouterError::InvalidPaginationState));
    let gap = vec![hashed(3, vec![]), hashed(5, vec![])];
    assert_eq!(validate_pages(3, &gap), Err(FeeRouterError::InvalidPaginationState));
    assert_eq!(validate_pages(9, &vec![]), Ok(9));
}

#[test]
fn page_with_wrong_hash_is_refused() {
    let mut page = hashed(0, vec![InvestorData { stream: key(1), investor: key(2) }]);
    page.investors[0].investor = key(9);
    assert_eq!(validate_pages(0, &vec![page]), Err(FeeRouterError::InvalidPaginationState));
}

#[test]
fn replayed_page_is_refused() {
    let pages = vec![hashed(0, vec![])];
    assert_eq!(validate_pages(0, &pages), Ok(1));
    assert_eq!(validate_pages(1, &pages), Err(FeeRouterError::InvalidPaginationState));
}

#[test]
fn last_page_index_overflows_the_cursor() {
    let pages = vec![hashed(u64::MAX, vec![])];
    assert_eq!(validate_pages(u64::MAX, &pages), Err(FeeRouterError::Overflow));
}
