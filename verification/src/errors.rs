//! Failure modes of the ledger operations.

use vstd::prelude::*;

verus! {

/// Everything that can make a ledger operation fail.  Host-side failures
/// (duplicate record creation, a transfer the token ledger refuses) are
/// reported by the host, not from here.  Some variants describe sub-account
/// checks that only a host makes; the core operations never produce them,
/// but they belong to the published error surface all the same.
#[derive(Clone, Copy, Debug, PartialEq, Eq)]
pub enum SwiftErr {
    /// A fee rate above 10000 basis points was supplied.
    InvalidBps,
    /// The purchase would push the day's spending over the subscription cap.
    DailyLimitExceeded,
    /// The supplied treasury token sub-account is not the one derived from
    /// the treasury and the reference mint.
    InvalidTreasuryAta,
    /// The supplied platform fee sub-account is not the derived one.
    InvalidFeeAta,
    /// The fee sub-account is owned by the wrong identity.
    InvalidFeeOwner,
    /// The user's token sub-account is owned by the wrong identity.
    InvalidUserAtaOwner,
    /// The user's token sub-account holds the wrong mint.
    InvalidUserAtaMint,
    /// The fee sub-account holds the wrong mint.
    InvalidFeeAtaMint,
    /// The caller is not the identity the operation requires.
    Unauthorized,
}

} // verus!
