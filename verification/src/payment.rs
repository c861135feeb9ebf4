//! The purchase operation: a user pays a merchant, the platform takes its
//! purchase fee, and the subscription's daily counter is brought up to date.

use vstd::prelude::*;
use crate::addr::{ata_for, ata_of};
use crate::arith::{fee_of, fee_split, sat_add, saturating_add_u64};
use crate::errors::SwiftErr;
use crate::keys::AccountId;
use crate::records::{Config, Merchant, PurchaseEvent, UserPlatform};
use crate::time::{same_day, same_utc_day};
use crate::transfer::{TransferPlan, TransferRequest};

verus! {

/// Accounts for [`pay`].  The host has resolved the subscription record for
/// this (user, merchant) pair and verified that `user_authority` signed.
#[derive(Clone, Copy, Debug, PartialEq, Eq)]
pub struct Pay {
    pub config: Config,
    /// The merchant being paid.
    pub merchant: Merchant,
    /// The (user, merchant) subscription; its daily counter is updated.
    pub user_platform: UserPlatform,
    /// The treasury's token sub-account as supplied by the caller; checked
    /// against the derivation before anything else.
    pub treasury_usdc_ata: AccountId,
    /// The paying user's identity (verified signer).
    pub user_authority: AccountId,
}

/// The supplied treasury sub-account matches the one derived from the
/// merchant's treasury record and the reference mint.
pub open spec fn treasury_ata_ok(ctx: Pay) -> bool {
    ctx.treasury_usdc_ata@ == ata_of(ctx.merchant.treasury@, ctx.config.usdc_mint@)
}

/// The day's spending counter as of `now`: unchanged within the same UTC day
/// as the last reset, zero once a day boundary has been crossed.
pub open spec fn rolled_spent(up: UserPlatform, now: i64) -> u64 {
    if same_day(now as int, up.last_reset_unix as int) {
        up.spent_today_usdc
    } else {
        0
    }
}

/// The reset stamp as of `now`: moved to `now` once a day boundary has been
/// crossed.
pub open spec fn rolled_reset(up: UserPlatform, now: i64) -> i64 {
    if same_day(now as int, up.last_reset_unix as int) {
        up.last_reset_unix
    } else {
        now
    }
}

/// A further `amount` fits under the subscription's cap as of `now`
/// (a cap of 0 means unlimited).
pub open spec fn fits_limit(up: UserPlatform, now: i64, amount: int) -> bool {
    up.daily_limit_usdc == 0 || rolled_spent(up, now) + amount <= up.daily_limit_usdc
}

/// Executes a purchase of `amount_usdc` at time `now`.
///
/// The supplied treasury sub-account must match its derivation, and the
/// amount must fit under the subscription's daily cap after any day
/// rollover; exactly then the call succeeds.  On success the daily counter
/// is committed and the returned plan moves the amount minus the purchase
/// fee from the user's token sub-account to the treasury's, and the fee, if
/// positive, to the platform's fee sub-account.  On failure nothing changes.
pub fn pay(ctx: &mut Pay, amount_usdc: u64, now: i64) -> (r: Result<
    (PurchaseEvent, TransferPlan),
    SwiftErr,
>)
    requires
        old(ctx).config.wf(),
        old(ctx).user_platform.wf(),
        0 <= now,
    ensures
        r is Ok <==> treasury_ata_ok(*old(ctx)) && fits_limit(
            old(ctx).user_platform,
            now,
            amount_usdc as int,
        ),
        r is Err ==> *final(ctx) == *old(ctx),
        r matches Err(e) ==> {
            &&& (e == SwiftErr::InvalidTreasuryAta) <==> !treasury_ata_ok(*old(ctx))
            &&& (e == SwiftErr::DailyLimitExceeded) <==> (treasury_ata_ok(*old(ctx))
                && !fits_limit(old(ctx).user_platform, now, amount_usdc as int))
        },
        r matches Ok((ev, plan)) ==> {
            let fee = fee_of(amount_usdc as int, old(ctx).config.purchase_fee_bps as int);
            &&& ev.user == old(ctx).user_platform.user
            &&& ev.merchant == old(ctx).user_platform.merchant
            &&& ev.amount_usdc == amount_usdc
            &&& ev.fee_usdc == fee
            &&& ev.ts == now
            &&& plan.to_recipient.from@ == ata_of(
                old(ctx).user_authority@,
                old(ctx).config.usdc_mint@,
            )
            &&& plan.to_recipient.to == old(ctx).treasury_usdc_ata
            &&& plan.to_recipient.authority == old(ctx).user_authority
            &&& plan.to_recipient.amount_usdc + fee == amount_usdc
            &&& (fee > 0 ==> (plan.fee matches Some(f) && f.from == plan.to_recipient.from
                && f.to@ == ata_of(old(ctx).config.authority@, old(ctx).config.usdc_mint@)
                && f.authority == old(ctx).user_authority && f.amount_usdc == fee))
            &&& (fee == 0 ==> plan.fee is None)
            &&& final(ctx).user_platform.spent_today_usdc == sat_add(
                rolled_spent(old(ctx).user_platform, now) as int,
                amount_usdc as int,
            )
            &&& final(ctx).user_platform.last_reset_unix == rolled_reset(
                old(ctx).user_platform,
                now,
            )
            &&& final(ctx).user_platform.daily_limit_usdc
                == old(ctx).user_platform.daily_limit_usdc
            &&& final(ctx).user_platform.user == old(ctx).user_platform.user
            &&& final(ctx).user_platform.merchant == old(ctx).user_platform.merchant
            &&& final(ctx).user_platform.bump == old(ctx).user_platform.bump
            &&& final(ctx).user_platform.wf()
            &&& final(ctx).user_platform.within_limit()
            &&& final(ctx).config == old(ctx).config
            &&& final(ctx).merchant == old(ctx).merchant
            &&& final(ctx).treasury_usdc_ata == old(ctx).treasury_usdc_ata
            &&& final(ctx).user_authority == old(ctx).user_authority
        },
{
    // The treasury sub-account must match its derivation before anything else.
    let expected = ata_for(&ctx.merchant.treasury, &ctx.config.usdc_mint);
    if !ctx.treasury_usdc_ata.key_eq(&expected) {
        return Err(SwiftErr::InvalidTreasuryAta);
    }
    // Day rollover, kept in locals until the operation is known to succeed.
    let same = same_utc_day(now, ctx.user_platform.last_reset_unix);
    let spent0: u64 = if same {
        ctx.user_platform.spent_today_usdc
    } else {
        0
    };
    let reset0: i64 = if same {
        ctx.user_platform.last_reset_unix
    } else {
        now
    };
    // Enforce the daily cap (0 means unlimited).
    if ctx.user_platform.daily_limit_usdc > 0 {
        let cap: u128 = ctx.user_platform.daily_limit_usdc as u128;
        if (spent0 as u128) + (amount_usdc as u128) > cap {
            return Err(SwiftErr::DailyLimitExceeded);
        }
    }
    let (fee, to_merchant) = fee_split(amount_usdc, ctx.config.purchase_fee_bps);
    let user_ata = ata_for(&ctx.user_authority, &ctx.config.usdc_mint);
    // Commit the day's counter.
    ctx.user_platform.spent_today_usdc = saturating_add_u64(spent0, amount_usdc);
    ctx.user_platform.last_reset_unix = reset0;
    let ev = PurchaseEvent {
        user: ctx.user_platform.user,
        merchant: ctx.user_platform.merchant,
        amount_usdc,
        fee_usdc: fee,
        ts: now,
    };
    let fee_req = if fee > 0 {
        let fee_ata = ata_for(&ctx.config.authority, &ctx.config.usdc_mint);
        Some(TransferRequest {
            from: user_ata,
            to: fee_ata,
            authority: ctx.user_authority,
            amount_usdc: fee,
        })
    } else {
        None
    };
    let plan = TransferPlan {
        to_recipient: TransferRequest {
            from: user_ata,
            to: ctx.treasury_usdc_ata,
            authority: ctx.user_authority,
            amount_usdc: to_merchant,
        },
        fee: fee_req,
    };
    Ok((ev, plan))
}

} // verus!
