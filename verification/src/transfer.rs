//! Transfer requests handed to the host's token ledger.
//!
//! The library never moves value itself: a successful `pay` or `withdraw`
//! returns the transfers to perform.  The host must execute a plan
//! atomically — if any transfer fails, none of the operation's effects may
//! be kept.

use vstd::prelude::*;
use crate::keys::AccountId;

verus! {

/// One transfer for the token ledger: move `amount_usdc` of the reference
/// asset from one token sub-account to another, authorized by `authority`.
#[derive(Clone, Copy, Debug, PartialEq, Eq)]
pub struct TransferRequest {
    pub from: AccountId,
    pub to: AccountId,
    /// The identity that authorizes the debit: the paying user's own key,
    /// or a treasury record whose signing capability the platform holds.
    pub authority: AccountId,
    pub amount_usdc: u64,
}

/// The transfers a money-moving operation asks for: the recipient's share,
/// and the platform fee when it is positive.
#[derive(Clone, Copy, Debug, PartialEq, Eq)]
pub struct TransferPlan {
    pub to_recipient: TransferRequest,
    pub fee: Option<TransferRequest>,
}

} // verus!
