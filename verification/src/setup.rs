//! Record creation and subscription management: platform initialization,
//! merchant and user registration, subscription opt-in and daily-limit
//! updates.
//!
//! Each operation takes the accounts the host resolved for it as a context
//! struct of plain values.  Storage allocation, uniqueness of records and
//! signature verification stay with the host: a `*_authority` field is an
//! identity the host has already proved to be the caller.

use vstd::prelude::*;
use crate::addr::{ata_for, ata_of};
use crate::errors::SwiftErr;
use crate::keys::AccountId;
use crate::records::{Config, Merchant, Treasury, User, UserPlatform};

verus! {

/// Accounts for [`initialize`].
#[derive(Clone, Copy, Debug, PartialEq, Eq)]
pub struct Initialize {
    /// The platform authority creating the configuration (verified signer).
    pub authority: AccountId,
    /// The platform's fee-collecting token sub-account.
    pub authority_treasury: AccountId,
    /// Storage-slot derivation byte for the configuration record.
    pub bump: u8,
}

/// Accounts for [`register_merchant`].
#[derive(Clone, Copy, Debug, PartialEq, Eq)]
pub struct RegisterMerchant {
    /// The merchant's identity (verified signer).
    pub merchant_authority: AccountId,
    /// Address allocated for the new merchant record.
    pub merchant_key: AccountId,
    /// Address allocated for the new treasury record.
    pub treasury_key: AccountId,
    pub merchant_bump: u8,
    pub treasury_bump: u8,
}

/// Accounts for [`register_user`].
#[derive(Clone, Copy, Debug, PartialEq, Eq)]
pub struct RegisterUser {
    /// The user's identity (verified signer).
    pub user_authority: AccountId,
    pub bump: u8,
}

/// Accounts for [`opt_in`].
#[derive(Clone, Copy, Debug, PartialEq, Eq)]
pub struct OptIn {
    /// Address of the user record subscribing.
    pub user_key: AccountId,
    /// Address of the merchant record subscribed to.
    pub merchant_key: AccountId,
    pub bump: u8,
}

/// Accounts for [`set_daily_limit`].
#[derive(Clone, Copy, Debug, PartialEq, Eq)]
pub struct SetDailyLimit {
    /// The subscribing user's record.
    pub user: User,
    /// The subscription being updated.
    pub user_platform: UserPlatform,
    /// The identity asking for the update (verified signer).
    pub user_authority: AccountId,
}

/// Creates the singleton configuration record.  Succeeds exactly when both
/// fee rates are valid (at most 10000 basis points); nothing else is
/// validated here.
pub fn initialize(
    ctx: &Initialize,
    usdc_mint: AccountId,
    purchase_fee_bps: u16,
    withdraw_fee_bps: u16,
) -> (r: Result<Config, SwiftErr>)
    ensures
        r is Ok <==> purchase_fee_bps <= 10000 && withdraw_fee_bps <= 10000,
        r is Err ==> r == Err::<Config, SwiftErr>(SwiftErr::InvalidBps),
        r matches Ok(cfg) ==> cfg == (Config {
            authority: ctx.authority,
            usdc_mint,
            purchase_fee_bps,
            withdraw_fee_bps,
            authority_treasury: ctx.authority_treasury,
            bump: ctx.bump,
        }),
        r matches Ok(cfg) ==> cfg.wf(),
{
    if !(purchase_fee_bps <= 10000 && withdraw_fee_bps <= 10000) {
        return Err(SwiftErr::InvalidBps);
    }
    Ok(Config {
        authority: ctx.authority,
        usdc_mint,
        purchase_fee_bps,
        withdraw_fee_bps,
        authority_treasury: ctx.authority_treasury,
        bump: ctx.bump,
    })
}

/// Creates a merchant record and its paired treasury record.  The treasury's
/// token sub-account is not taken from the caller: it is derived from the
/// treasury address and the configured reference mint, so the treasury
/// invariant holds by construction.
pub fn register_merchant(config: &Config, ctx: &RegisterMerchant) -> (r: (Merchant, Treasury))
    ensures
        r.0 == (Merchant {
            merchant_authority: ctx.merchant_authority,
            treasury: ctx.treasury_key,
            bump: ctx.merchant_bump,
        }),
        r.1.merchant == ctx.merchant_key,
        r.1.usdc_ata@ == ata_of(ctx.treasury_key@, config.usdc_mint@),
        r.1.wf(ctx.treasury_key@, config.usdc_mint@),
        r.1.bump == ctx.treasury_bump,
{
    let m = Merchant {
        merchant_authority: ctx.merchant_authority,
        treasury: ctx.treasury_key,
        bump: ctx.merchant_bump,
    };
    let t = Treasury {
        merchant: ctx.merchant_key,
        usdc_ata: ata_for(&ctx.treasury_key, &config.usdc_mint),
        bump: ctx.treasury_bump,
    };
    (m, t)
}

/// Creates a user record.  The default daily limit starts at 0, meaning
/// unlimited; it is informational and never enforced directly.
pub fn register_user(ctx: &RegisterUser) -> (r: User)
    ensures
        r == (User {
            owner: ctx.user_authority,
            default_daily_limit_usdc: 0,
            bump: ctx.bump,
        }),
{
    User { owner: ctx.user_authority, default_daily_limit_usdc: 0, bump: ctx.bump }
}

/// Creates the subscription record for a (user, merchant) pair: nothing
/// spent yet, daily window anchored at `now`.
pub fn opt_in(ctx: &OptIn, daily_limit_usdc: u64, now: i64) -> (r: UserPlatform)
    requires
        0 <= now,
    ensures
        r == (UserPlatform {
            user: ctx.user_key,
            merchant: ctx.merchant_key,
            daily_limit_usdc,
            spent_today_usdc: 0,
            last_reset_unix: now,
            bump: ctx.bump,
        }),
        r.wf(),
        r.within_limit(),
{
    UserPlatform {
        user: ctx.user_key,
        merchant: ctx.merchant_key,
        daily_limit_usdc,
        spent_today_usdc: 0,
        last_reset_unix: now,
        bump: ctx.bump,
    }
}

/// Updates a subscription's daily cap.  Only the subscribing user may do so,
/// and nothing but the cap changes: the amount already spent today and the
/// last reset stamp are left exactly as they were.
pub fn set_daily_limit(ctx: &mut SetDailyLimit, new_limit: u64) -> (r: Result<(), SwiftErr>)
    ensures
        r is Ok <==> old(ctx).user.owner@ == old(ctx).user_authority@,
        r is Err ==> r == Err::<(), SwiftErr>(SwiftErr::Unauthorized) && *final(ctx) == *old(ctx),
        r is Ok ==> {
            &&& final(ctx).user_platform.daily_limit_usdc == new_limit
            &&& final(ctx).user_platform.spent_today_usdc == old(ctx).user_platform.spent_today_usdc
            &&& final(ctx).user_platform.last_reset_unix == old(ctx).user_platform.last_reset_unix
            &&& final(ctx).user_platform.user == old(ctx).user_platform.user
            &&& final(ctx).user_platform.merchant == old(ctx).user_platform.merchant
            &&& final(ctx).user_platform.bump == old(ctx).user_platform.bump
            &&& final(ctx).user == old(ctx).user
            &&& final(ctx).user_authority == old(ctx).user_authority
        },
{
    if !ctx.user.owner.key_eq(&ctx.user_authority) {
        return Err(SwiftErr::Unauthorized);
    }
    ctx.user_platform.daily_limit_usdc = new_limit;
    Ok(())
}

} // verus!
