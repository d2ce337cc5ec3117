use vstd::prelude::*;
use crate::error::FeeRouterError;
use crate::hash::digests_equal;
use crate::page::{expected_page_hash, InvestorPage};

verus! {

/// The check of one page against the index that is expected next: the
/// page must have that index and declare the computed hash. The result is the
/// index expected after it.
pub open spec fn page_check(
    expected: u64,
    page_index: u64,
    declared: Seq<u8>,
    computed: Seq<u8>,
) -> Result<u64, FeeRouterError> {
    if page_index != expected || declared != computed {
        Err(FeeRouterError::InvalidPaginationState)
    } else if expected == u64::MAX {
        Err(FeeRouterError::Overflow)
    } else {
        Ok((expected + 1) as u64)
    }
}

/// The check of the pages of a call, in order, against the cursor. The
/// result is the cursor after them, or the error of the first page that fails.
pub open spec fn pages_follow(cursor: u64, pages: Seq<InvestorPage>) -> Result<u64, FeeRouterError>
    decreases pages.len(),
{
    if pages.len() == 0 {
        Ok(cursor)
    } else {
        match pages_follow(cursor, pages.drop_last()) {
            Err(e) => Err(e),
            Ok(expected) => page_check(
                expected,
                pages.last().page_index,
                pages.last().page_hash@,
                expected_page_hash(pages.last().page_index, pages.last().investors@),
            ),
        }
    }
}

/// Checks one page, given the hash computed of it.
pub fn check_page(expected: u64, page_index: u64, declared: &[u8; 32], computed: &[u8; 32]) -> (result:
    Result<u64, FeeRouterError>)
    ensures
        result == page_check(expected, page_index, declared@, computed@),
{
    if page_index != expected {
        return Err(FeeRouterError::InvalidPaginationState);
    }
    if !digests_equal(declared, computed) {
        return Err(FeeRouterError::InvalidPaginationState);
    }
    match expected.checked_add(1) {
        Some(next) => Ok(next),
        None => Err(FeeRouterError::Overflow),
    }
}

/// Checks that the pages continue the cursor one by one and that each
/// declares the hash of its contents.
pub fn validate_pages(cursor: u64, investor_pages: &Vec<InvestorPage>) -> (result: Result<
    u64,
    FeeRouterError,
>)
    ensures
        result == pages_follow(cursor, investor_pages@),
{
    let mut expected = cursor;
    let mut p: usize = 0;
    assert(investor_pages@.subrange(0, 0) =~= Seq::empty());
    while p < investor_pages.len()
        invariant
            p <= investor_pages@.len(),
            pages_follow(cursor, investor_pages@.subrange(0, p as int)) == Ok::<
                u64,
                FeeRouterError,
            >(expected),
        decreases investor_pages@.len() - p,
    {
        let page = &investor_pages[p];
        let ghost next = investor_pages@.subrange(0, p + 1);
        assert(next.drop_last() =~= investor_pages@.subrange(0, p as int));
        assert(next.last() == investor_pages@[p as int]);
        if page.page_index != expected {
            proof {
                lemma_pages_follow_error(cursor, investor_pages@, p + 1);
            }
            return Err(FeeRouterError::InvalidPaginationState);
        }
        let computed = page.compute_hash();
        match check_page(expected, page.page_index, &page.page_hash, &computed) {
            Ok(after) => {
                expected = after;
            },
            Err(e) => {
                proof {
                    lemma_pages_follow_error(cursor, investor_pages@, p + 1);
                }
                return Err(e);
            },
        }
        p = p + 1;
    }
    assert(investor_pages@.subrange(0, p as int) =~= investor_pages@);
    Ok(expected)
}

/// An error among the first `k` pages is the error of all the pages.
pub proof fn lemma_pages_follow_error(cursor: u64, pages: Seq<InvestorPage>, k: int)
    requires
        0 <= k <= pages.len(),
        pages_follow(cursor, pages.subrange(0, k)) is Err,
    ensures
        pages_follow(cursor, pages) == pages_follow(cursor, pages.subrange(0, k)),
    decreases pages.len() - k,
{
    if k == pages.len() {
        assert(pages.subrange(0, k) =~= pages);
    } else {
        let next = pages.subrange(0, k + 1);
        assert(next.drop_last() =~= pages.subrange(0, k));
        lemma_pages_follow_error(cursor, pages, k + 1);
    }
}

/// Pages that pass the check are the pages `cursor`, `cursor + 1`, ... in
/// this order, each with the hash of its contents, and the cursor after them
/// is the cursor before them plus their number.
pub proof fn lemma_pages_follow_ok(cursor: u64, pages: Seq<InvestorPage>)
    requires
        pages_follow(cursor, pages) is Ok,
    ensures
        pages_follow(cursor, pages) == Ok::<u64, FeeRouterError>((cursor + pages.len()) as u64),
        cursor + pages.len() <= u64::MAX,
        forall|k: int|
            0 <= k < pages.len() ==> (#[trigger] pages[k]).page_index == cursor + k
                && pages[k].hash_valid(),
    decreases pages.len(),
{
    if pages.len() > 0 {
        lemma_pages_follow_ok(cursor, pages.drop_last());
        assert forall|k: int| 0 <= k < pages.len() implies (#[trigger] pages[k]).page_index
            == cursor + k && pages[k].hash_valid() by {
            if k < pages.len() - 1 {
                assert(pages.drop_last()[k] == pages[k]);
            }
        }
    }
}

} // verus!
