use vstd::prelude::*;
use vstd::bytes::{spec_u64_from_le_bytes, u64_from_le_bytes};
use vstd::slice::slice_subrange;
use crate::error::FeeRouterError;
use crate::pubkey::Pubkey;

verus! {

/// The bytes of the address of the program that owns the stream accounts.
pub const STREAMFLOW_PROGRAM_ID: [u8; 32] = [
    13, 9, 173, 48, 111, 241, 94, 119, 221, 49, 25, 188, 214, 231, 48, 241,
    93, 5, 29, 124, 9, 122, 122, 29, 0, 234, 65, 14, 238, 72, 231, 32,
];

/// The length of a stream account: an 8-byte tag, two amounts and the recipient.
pub const STREAM_ACCOUNT_LEN: usize = 56;

/// What is read of a stream account.
#[derive(Clone, Copy, Debug)]
pub struct StreamflowStream {
    /// The amount deposited at first.
    pub deposited: u64,
    /// The amount withdrawn so far.
    pub withdrawn: u64,
    /// The investor who receives the stream.
    pub recipient: Pubkey,
}

/// The deposited amount in the bytes of a stream account.
pub open spec fn stream_deposited(data: Seq<u8>) -> u64 {
    spec_u64_from_le_bytes(data.subrange(8, 16))
}

/// The withdrawn amount in the bytes of a stream account.
pub open spec fn stream_withdrawn(data: Seq<u8>) -> u64 {
    spec_u64_from_le_bytes(data.subrange(16, 24))
}

/// The recipient's address in the bytes of a stream account.
pub open spec fn stream_recipient(data: Seq<u8>) -> Seq<u8> {
    data.subrange(24, 56)
}

/// What is locked now: the deposit less what was withdrawn.
pub fn calculate_locked_amount(stream: &StreamflowStream) -> (result: Result<u64, FeeRouterError>)
    ensures
        stream.withdrawn <= stream.deposited ==> result == Ok::<u64, FeeRouterError>(
            (stream.deposited - stream.withdrawn) as u64,
        ),
        stream.withdrawn > stream.deposited ==> result == Err::<u64, FeeRouterError>(
            FeeRouterError::Overflow,
        ),
{
    match stream.deposited.checked_sub(stream.withdrawn) {
        Some(locked) => Ok(locked),
        None => Err(FeeRouterError::Overflow),
    }
}

/// Accepts the stream when its recipient is the expected investor.
pub fn validate_stream_for_investor(stream: &StreamflowStream, expected_investor: &Pubkey) -> (result:
    Result<(), FeeRouterError>)
    ensures
        stream.recipient == *expected_investor ==> result == Ok::<(), FeeRouterError>(()),
        stream.recipient != *expected_investor ==> result == Err::<(), FeeRouterError>(
            FeeRouterError::MissingRequiredInput,
        ),
{
    if stream.recipient != *expected_investor {
        return Err(FeeRouterError::MissingRequiredInput);
    }
    Ok(())
}

/// Reads a stream account from its bytes: 8 bytes that are skipped, the
/// deposited and the withdrawn amount as little-endian 64-bit numbers, and
/// the 32 bytes of the recipient. Any other length is refused.
pub fn parse_streamflow_account(data: &[u8]) -> (result: Result<StreamflowStream, FeeRouterError>)
    ensures
        match result {
            Ok(stream) => {
                &&& data@.len() == 56
                &&& stream.deposited == stream_deposited(data@)
                &&& stream.withdrawn == stream_withdrawn(data@)
                &&& stream.recipient@ == stream_recipient(data@)
            },
            Err(e) => e == FeeRouterError::MissingRequiredInput && data@.len() != 56,
        },
{
    if data.len() != STREAM_ACCOUNT_LEN {
        return Err(FeeRouterError::MissingRequiredInput);
    }
    let deposited = u64_from_le_bytes(slice_subrange(data, 8, 16));
    let withdrawn = u64_from_le_bytes(slice_subrange(data, 16, 24));
    let mut bytes: [u8; 32] = [0u8; 32];
    let mut i: usize = 0;
    while i < 32
        invariant
            i <= 32,
            data@.len() == 56,
            forall|j: int| 0 <= j < i ==> bytes@[j] == data@[24 + j],
        decreases 32 - i,
    {
        bytes[i] = data[24 + i];
        i += 1;
    }
    assert(bytes@ =~= data@.subrange(24, 56));
    Ok(StreamflowStream { deposited, withdrawn, recipient: Pubkey { bytes } })
}

} // verus!
