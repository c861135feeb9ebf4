//! The persisted record model: one global configuration, one record per
//! merchant with its paired treasury, one per user, and one subscription per
//! (user, merchant) pair, plus the events the two money-moving operations
//! emit.

use vstd::prelude::*;
use crate::addr::ata_of;
use crate::keys::AccountId;

verus! {

/// The singleton platform configuration, written once at initialization.
#[derive(Clone, Copy, Debug, PartialEq, Eq)]
pub struct Config {
    /// The platform authority's identity.
    pub authority: AccountId,
    /// The reference asset (the single currency the ledger tracks).
    pub usdc_mint: AccountId,
    /// Purchase fee rate in basis points, at most 10000.
    pub purchase_fee_bps: u16,
    /// Withdrawal fee rate in basis points, at most 10000.
    pub withdraw_fee_bps: u16,
    /// The platform's fee-collecting token sub-account.
    pub authority_treasury: AccountId,
    /// Storage-slot derivation byte, kept for the host.
    pub bump: u8,
}

impl Config {
    /// Both fee rates stay within 100%.
    pub open spec fn wf(&self) -> bool {
        self.purchase_fee_bps <= 10000 && self.withdraw_fee_bps <= 10000
    }
}

/// One registered merchant, linked 1:1 to its treasury record.
#[derive(Clone, Copy, Debug, PartialEq, Eq)]
pub struct Merchant {
    /// The identity allowed to withdraw from the treasury.
    pub merchant_authority: AccountId,
    /// The address of the paired treasury record.
    pub treasury: AccountId,
    pub bump: u8,
}

/// A merchant's platform-held treasury, owner of the fee-bearing token
/// sub-account for the reference asset.
#[derive(Clone, Copy, Debug, PartialEq, Eq)]
pub struct Treasury {
    /// The merchant record this treasury belongs to.
    pub merchant: AccountId,
    /// The treasury's token sub-account, derived from the treasury address
    /// and the reference mint.
    pub usdc_ata: AccountId,
    pub bump: u8,
}

impl Treasury {
    /// The token sub-account is exactly the one derived from the treasury's
    /// own record address and the reference mint; registration establishes
    /// this and no operation re-creates a treasury.
    pub open spec fn wf(&self, treasury_key: Seq<u8>, usdc_mint: Seq<u8>) -> bool {
        self.usdc_ata@ == ata_of(treasury_key, usdc_mint)
    }
}

/// One registered user.
#[derive(Clone, Copy, Debug, PartialEq, Eq)]
pub struct User {
    /// The user's identity.
    pub owner: AccountId,
    /// Informational default cap for new subscriptions; 0 means unlimited.
    pub default_daily_limit_usdc: u64,
    pub bump: u8,
}

/// The per-(user, merchant) subscription: the daily spending cap and the
/// running total spent in the current UTC day.
#[derive(Clone, Copy, Debug, PartialEq, Eq)]
pub struct UserPlatform {
    /// The subscribed user's record address.
    pub user: AccountId,
    /// The merchant's record address.
    pub merchant: AccountId,
    /// Daily spending cap; 0 means unlimited.
    pub daily_limit_usdc: u64,
    /// Amount spent in the day `last_reset_unix` falls in.
    pub spent_today_usdc: u64,
    /// Timestamp of the last daily-window reset, nonnegative Unix seconds.
    pub last_reset_unix: i64,
    pub bump: u8,
}

impl UserPlatform {
    /// The reset stamp is a nonnegative Unix timestamp.
    pub open spec fn wf(&self) -> bool {
        0 <= self.last_reset_unix
    }

    /// A positive daily cap is respected by the running total.
    pub open spec fn within_limit(&self) -> bool {
        self.daily_limit_usdc > 0 ==> self.spent_today_usdc <= self.daily_limit_usdc
    }
}

/// Emitted by a successful purchase.
#[derive(Clone, Copy, Debug, PartialEq, Eq)]
pub struct PurchaseEvent {
    pub user: AccountId,
    pub merchant: AccountId,
    pub amount_usdc: u64,
    pub fee_usdc: u64,
    pub ts: i64,
}

/// Emitted by a successful merchant payout.
#[derive(Clone, Copy, Debug, PartialEq, Eq)]
pub struct WithdrawEvent {
    pub merchant: AccountId,
    pub amount_usdc: u64,
    pub fee_usdc: u64,
    pub ts: i64,
}

} // verus!
