use vstd::prelude::*;
use crate::error::FeeRouterError;
use crate::page::{InvestorData, InvestorPage};
use crate::pubkey::{lemma_pubkey_eq, Pubkey};
use crate::streamflow::{
    calculate_locked_amount, parse_streamflow_account, stream_deposited, stream_recipient,
    stream_withdrawn, validate_stream_for_investor,
};

verus! {

/// What the distribution reads of an account that accompanies an investor:
/// its address, the program that owns it, and its data.
#[derive(Clone, Debug)]
pub struct RemainingAccount {
    pub key: Pubkey,
    pub owner: Pubkey,
    pub data: Vec<u8>,
}

/// The number of investors on the given pages.
pub open spec fn total_investors(pages: Seq<InvestorPage>) -> nat
    decreases pages.len(),
{
    if pages.len() == 0 {
        0
    } else {
        total_investors(pages.drop_last()) + pages.last().investors@.len()
    }
}

/// What an investor has locked according to a stream account. The account
/// must be the stream that the page names, belong to the stream program,
/// have the layout of a stream and name the investor as its recipient; a
/// stream that has paid out more than was deposited is corrupt.
pub open spec fn investor_locked(
    account: RemainingAccount,
    investor: InvestorData,
    streamflow_program_id: Pubkey,
) -> Result<u64, FeeRouterError> {
    if account.key != investor.stream || account.owner != streamflow_program_id
        || account.data@.len() != 56 || stream_recipient(account.data@) != investor.investor@ {
        Err(FeeRouterError::MissingRequiredInput)
    } else if stream_withdrawn(account.data@) > stream_deposited(account.data@) {
        Err(FeeRouterError::Overflow)
    } else {
        Ok((stream_deposited(account.data@) - stream_withdrawn(account.data@)) as u64)
    }
}

/// What the investor whose two accounts stand at `at` and `at + 1` has locked.
pub open spec fn holder_locked(
    accounts: Seq<RemainingAccount>,
    at: int,
    investor: InvestorData,
    streamflow_program_id: Pubkey,
) -> Result<u64, FeeRouterError> {
    if at < 0 || at + 1 >= accounts.len() {
        Err(FeeRouterError::MissingRequiredInput)
    } else {
        investor_locked(accounts[at], investor, streamflow_program_id)
    }
}

/// The sum of what the given investors have locked, the accounts of the
/// first of them standing at `start`; the error of the first investor whose
/// stream is refused.
pub open spec fn locked_in_page(
    accounts: Seq<RemainingAccount>,
    start: int,
    investors: Seq<InvestorData>,
    streamflow_program_id: Pubkey,
) -> Result<int, FeeRouterError>
    decreases investors.len(),
{
    if investors.len() == 0 {
        Ok(0)
    } else {
        match locked_in_page(accounts, start, investors.drop_last(), streamflow_program_id) {
            Err(e) => Err(e),
            Ok(sum) => match holder_locked(
                accounts,
                start + 2 * (investors.len() - 1),
                investors.last(),
                streamflow_program_id,
            ) {
                Err(e) => Err(e),
                Ok(locked) => Ok(sum + locked),
            },
        }
    }
}

/// The sum of what the investors of all the pages have locked, the accounts
/// standing in the order of the pages and their investors, two for each.
pub open spec fn locked_in_pages(
    accounts: Seq<RemainingAccount>,
    pages: Seq<InvestorPage>,
    streamflow_program_id: Pubkey,
) -> Result<int, FeeRouterError>
    decreases pages.len(),
{
    if pages.len() == 0 {
        Ok(0)
    } else {
        match locked_in_pages(accounts, pages.drop_last(), streamflow_program_id) {
            Err(e) => Err(e),
            Ok(sum) => match locked_in_page(
                accounts,
                2 * (total_investors(pages.drop_last()) as int),
                pages.last().investors@,
                streamflow_program_id,
            ) {
                Err(e) => Err(e),
                Ok(page_sum) => Ok(sum + page_sum),
            },
        }
    }
}

/// Reads what one investor has locked from the stream account that
/// accompanies the investor.
pub fn read_locked_amount(
    account: &RemainingAccount,
    investor: &InvestorData,
    streamflow_program_id: &Pubkey,
) -> (result: Result<u64, FeeRouterError>)
    ensures
        result == investor_locked(*account, *investor, *streamflow_program_id),
{
    if account.key != investor.stream {
        return Err(FeeRouterError::MissingRequiredInput);
    }
    if account.owner != *streamflow_program_id {
        return Err(FeeRouterError::MissingRequiredInput);
    }
    let stream = match parse_streamflow_account(account.data.as_slice()) {
        Ok(stream) => stream,
        Err(e) => {
            return Err(e);
        },
    };
    proof {
        lemma_pubkey_eq(stream.recipient, investor.investor);
    }
    match validate_stream_for_investor(&stream, &investor.investor) {
        Ok(()) => {},
        Err(e) => {
            return Err(e);
        },
    }
    calculate_locked_amount(&stream)
}

/// The bound that keeps a sum of 64-bit amounts inside 128 bits.
pub open spec fn sum_bound(count: int) -> int {
    count * 0xffff_ffff_ffff_ffff
}

/// Sums what the investors of all the pages have locked, reading for each
/// investor the stream account that stands at its place among the
/// remaining accounts. The sum of 64-bit amounts cannot leave 128 bits.
pub fn calculate_total_locked_from_streamflow(
    investor_pages: &Vec<InvestorPage>,
    remaining_accounts: &Vec<RemainingAccount>,
    streamflow_program_id: &Pubkey,
) -> (result: Result<u128, FeeRouterError>)
    ensures
        match result {
            Ok(total) => locked_in_pages(
                remaining_accounts@,
                investor_pages@,
                *streamflow_program_id,
            ) == Ok::<int, FeeRouterError>(total as int),
            Err(e) => locked_in_pages(remaining_accounts@, investor_pages@, *streamflow_program_id)
                == Err::<int, FeeRouterError>(e),
        },
{
    let mut total_locked: u128 = 0;
    let mut index: usize = 0;
    let mut p: usize = 0;
    assert(investor_pages@.subrange(0, 0) =~= Seq::empty());
    while p < investor_pages.len()
        invariant
            p <= investor_pages@.len(),
            index == 2 * total_investors(investor_pages@.subrange(0, p as int)),
            index <= remaining_accounts@.len(),
            locked_in_pages(
                remaining_accounts@,
                investor_pages@.subrange(0, p as int),
                *streamflow_program_id,
            ) == Ok::<int, FeeRouterError>(total_locked as int),
            total_locked <= sum_bound(index as int),
        decreases investor_pages@.len() - p,
    {
        let page = &investor_pages[p];
        let ghost start = index as int;
        let ghost before = total_locked as int;
        let ghost next_pages = investor_pages@.subrange(0, p + 1);
        assert(next_pages.drop_last() =~= investor_pages@.subrange(0, p as int));
        assert(next_pages.last() == investor_pages@[p as int]);
        let mut i: usize = 0;
        assert(page.investors@.subrange(0, 0) =~= Seq::empty());
        while i < page.investors.len()
            invariant
                i <= page.investors@.len(),
                p < investor_pages@.len(),
                index == start + 2 * i,
                index <= remaining_accounts@.len(),
                before <= total_locked,
                before <= sum_bound(start),
                locked_in_page(
                    remaining_accounts@,
                    start,
                    page.investors@.subrange(0, i as int),
                    *streamflow_program_id,
                ) == Ok::<int, FeeRouterError>(total_locked - before),
                total_locked <= sum_bound(index as int),
                next_pages.drop_last() == investor_pages@.subrange(0, p as int),
                next_pages.last() == *page,
                start == 2 * total_investors(next_pages.drop_last()),
                locked_in_pages(
                    remaining_accounts@,
                    next_pages.drop_last(),
                    *streamflow_program_id,
                ) == Ok::<int, FeeRouterError>(before),
                next_pages.len() == p + 1,
                next_pages == investor_pages@.subrange(0, p + 1),
            decreases page.investors@.len() - i,
        {
            let ghost next = page.investors@.subrange(0, i + 1);
            assert(next.drop_last() =~= page.investors@.subrange(0, i as int));
            assert(next.last() == page.investors@[i as int]);
            if index >= remaining_accounts.len() || index + 1 >= remaining_accounts.len() {
                proof {
                    lemma_locked_in_page_error(
                        remaining_accounts@,
                        start,
                        page.investors@,
                        *streamflow_program_id,
                        i + 1,
                    );
                    lemma_locked_in_pages_error(
                        remaining_accounts@,
                        investor_pages@,
                        *streamflow_program_id,
                        p + 1,
                    );
                }
                return Err(FeeRouterError::MissingRequiredInput);
            }
            let locked = match read_locked_amount(
                &remaining_accounts[index],
                &page.investors[i],
                streamflow_program_id,
            ) {
                Ok(locked) => locked,
                Err(e) => {
                    proof {
                        lemma_locked_in_page_error(
                            remaining_accounts@,
                            start,
                            page.investors@,
                            *streamflow_program_id,
                            i + 1,
                        );
                        lemma_locked_in_pages_error(
                            remaining_accounts@,
                            investor_pages@,
                            *streamflow_program_id,
                            p + 1,
                        );
                    }
                    return Err(e);
                },
            };
            assert(total_locked + locked <= sum_bound(index + 2)) by {
                assert(sum_bound(index + 2) == sum_bound(index as int) + 2 * 0xffff_ffff_ffff_ffff)
                    by (nonlinear_arith);
            }
            assert(sum_bound(index + 2) <= u128::MAX) by {
                assert(index + 2 <= 0xffff_ffff_ffff_ffff);
                assert(sum_bound(index + 2) <= 0xffff_ffff_ffff_ffff * 0xffff_ffff_ffff_ffff)
                    by (nonlinear_arith)
                    requires
                        0 <= index + 2 <= 0xffff_ffff_ffff_ffff,
                ;
            }
            total_locked = total_locked + locked as u128;
            index = index + 2;
            i = i + 1;
        }
        assert(page.investors@.subrange(0, i as int) =~= page.investors@);
        p = p + 1;
    }
    assert(investor_pages@.subrange(0, p as int) =~= investor_pages@);
    Ok(total_locked)
}

/// An error among the first `k` investors of a page is the error of the page.
pub proof fn lemma_locked_in_page_error(
    accounts: Seq<RemainingAccount>,
    start: int,
    investors: Seq<InvestorData>,
    streamflow_program_id: Pubkey,
    k: int,
)
    requires
        0 <= k <= investors.len(),
        locked_in_page(accounts, start, investors.subrange(0, k), streamflow_program_id) is Err,
    ensures
        locked_in_page(accounts, start, investors, streamflow_program_id) == locked_in_page(
            accounts,
            start,
            investors.subrange(0, k),
            streamflow_program_id,
        ),
    decreases investors.len() - k,
{
    if k == investors.len() {
        assert(investors.subrange(0, k) =~= investors);
    } else {
        let next = investors.subrange(0, k + 1);
        assert(next.drop_last() =~= investors.subrange(0, k));
        lemma_locked_in_page_error(accounts, start, investors, streamflow_program_id, k + 1);
    }
}

/// An error among the first `k` pages is the error of all the pages.
pub proof fn lemma_locked_in_pages_error(
    accounts: Seq<RemainingAccount>,
    pages: Seq<InvestorPage>,
    streamflow_program_id: Pubkey,
    k: int,
)
    requires
        0 <= k <= pages.len(),
        locked_in_pages(accounts, pages.subrange(0, k), streamflow_program_id) is Err,
    ensures
        locked_in_pages(accounts, pages, streamflow_program_id) == locked_in_pages(
            accounts,
            pages.subrange(0, k),
            streamflow_program_id,
        ),
    decreases pages.len() - k,
{
    if k == pages.len() {
        assert(pages.subrange(0, k) =~= pages);
    } else {
        let next = pages.subrange(0, k + 1);
        assert(next.drop_last() =~= pages.subrange(0, k));
        lemma_locked_in_pages_error(accounts, pages, streamflow_program_id, k + 1);
    }
}

} // verus!
