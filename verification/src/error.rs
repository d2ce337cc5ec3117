use vstd::prelude::*;

verus! {

/// Every way a call of the router can fail. A failed call changes nothing.
#[derive(Clone, Copy, Debug, PartialEq, Eq, Structural)]
pub enum FeeRouterError {
    /// The claim produced some amount of the base token.
    BaseFeeDetected,
    /// The pool's token order does not agree with the declared quote mint.
    InvalidPoolOrder,
    /// The preflight check failed or could not be made.
    PreflightFailed,
    /// A new day was asked for less than 24 hours after the last distribution.
    DayGateNotPassed,
    /// The distribution would exceed the daily cap or was already made.
    AlreadyDistributed,
    /// A required account or configuration value is missing or does not match.
    MissingRequiredInput,
    /// A payout was below the minimum and went to the carry-over.
    MinPayoutNotReached,
    /// A derived address does not match the expected key.
    PdaSeedMismatch,
    /// An arithmetic step left the range of its type.
    Overflow,
    /// Not enough lamports to create a required account.
    InsufficientRent,
    /// The tick range is empty or inverted.
    InvalidTickRange,
    /// The pool's configuration cannot guarantee quote-only fees.
    QuoteOnlyNotGuaranteed,
    /// The total investor allocation is zero.
    InvalidY0,
    /// The investor fee share is above 10000 basis points.
    InvalidFeeShareBps,
    /// The current day is sealed.
    DayAlreadyFinalized,
    /// The pagination cursor is out of bounds.
    PaginationOutOfBounds,
    /// A token transfer failed.
    TransferFailed,
    /// The locked total is larger than the total investor allocation.
    LockedExceedsAllocation,
    /// A page does not continue the cursor, or does not match its hash, or
    /// the final page count is not the expected one.
    InvalidPaginationState,
    /// The position is not the one recorded for the vault.
    InvalidPositionOwner,
    /// The pool program is not the expected one.
    InvalidCpAmmProgram,
    /// An address of the pool program is not the derived one.
    InvalidCpAmmPda,
    /// The quote mint is neither of the pool's two mints.
    InvalidQuoteMint,
    /// The tick range would accrue fees in the base token.
    PositionNotQuoteOnly,
}

} // verus!
