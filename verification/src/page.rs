use vstd::prelude::*;
use vstd::bytes::{spec_u64_to_le_bytes, u64_to_le_bytes};
use crate::hash::{digests_equal, sha256, sha256_digest};
use crate::pubkey::Pubkey;

verus! {

/// One investor of a page.
#[derive(Clone, Copy, Debug)]
pub struct InvestorData {
    /// The stream account that holds the investor's locked tokens.
    pub stream: Pubkey,
    /// The investor's wallet, the recipient of the stream.
    pub investor: Pubkey,
}

/// A batch of investors, processed in one step of a day's distribution.
#[derive(Clone, Debug)]
pub struct InvestorPage {
    pub page_index: u64,
    /// The hash that commits to the index and the investors of the page.
    pub page_hash: [u8; 32],
    pub investors: Vec<InvestorData>,
}

/// The bytes of the investors of a page, in order: for each the stream's
/// address, then the investor's.
pub open spec fn investors_bytes(investors: Seq<InvestorData>) -> Seq<u8>
    decreases investors.len(),
{
    if investors.len() == 0 {
        Seq::empty()
    } else {
        investors_bytes(investors.drop_last()) + investors.last().stream@
            + investors.last().investor@
    }
}

/// The bytes that a page's hash commits to: the index as 8 little-endian
/// bytes, then the investors.
pub open spec fn page_preimage(page_index: u64, investors: Seq<InvestorData>) -> Seq<u8> {
    spec_u64_to_le_bytes(page_index) + investors_bytes(investors)
}

/// The hash that a page with this index and these investors must declare.
pub open spec fn expected_page_hash(page_index: u64, investors: Seq<InvestorData>) -> Seq<u8> {
    sha256(page_preimage(page_index, investors))
}

fn push_key(out: &mut Vec<u8>, key: &Pubkey)
    ensures
        final(out)@ == old(out)@ + key@,
{
    let mut i: usize = 0;
    while i < 32
        invariant
            i <= 32,
            out@ == old(out)@ + key@.subrange(0, i as int),
        decreases 32 - i,
    {
        out.push(key.bytes[i]);
        assert(key@.subrange(0, i + 1) =~= key@.subrange(0, i as int).push(key@[i as int]));
        i += 1;
    }
    assert(key@.subrange(0, 32) =~= key@);
}

impl InvestorPage {
    /// Whether the page declares the hash of its own index and investors.
    pub open spec fn hash_valid(&self) -> bool {
        self.page_hash@ == expected_page_hash(self.page_index, self.investors@)
    }

    /// The bytes that the page's hash commits to.
    pub fn preimage(&self) -> (bytes: Vec<u8>)
        ensures
            bytes@ == page_preimage(self.page_index, self.investors@),
    {
        let mut bytes = u64_to_le_bytes(self.page_index);
        let n = self.investors.len();
        let mut i: usize = 0;
        assert(self.investors@.subrange(0, 0) =~= Seq::empty());
        while i < n
            invariant
                i <= n,
                n == self.investors@.len(),
                bytes@ == page_preimage(self.page_index, self.investors@.subrange(0, i as int)),
            decreases n - i,
        {
            let investor = &self.investors[i];
            push_key(&mut bytes, &investor.stream);
            push_key(&mut bytes, &investor.investor);
            proof {
                let next = self.investors@.subrange(0, i + 1);
                assert(next.drop_last() =~= self.investors@.subrange(0, i as int));
                assert(next.last() == self.investors@[i as int]);
                assert(bytes@ =~= page_preimage(self.page_index, next));
            }
            i += 1;
        }
        assert(self.investors@.subrange(0, n as int) =~= self.investors@);
        bytes
    }

    /// The hash of the page's index and investors.
    pub fn compute_hash(&self) -> (digest: [u8; 32])
        ensures
            digest@ == expected_page_hash(self.page_index, self.investors@),
    {
        let bytes = self.preimage();
        sha256_digest(&bytes)
    }

    /// Whether the declared hash is the computed one.
    pub fn verify_hash(&self) -> (valid: bool)
        ensures
            valid == self.hash_valid(),
    {
        let computed = self.compute_hash();
        digests_equal(&self.page_hash, &computed)
    }
}

} // verus!
