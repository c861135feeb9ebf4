//! The merchant payout operation: a merchant draws from its platform-held
//! treasury into its personal wallet, and the platform skims its
//! withdrawal fee.

use vstd::prelude::*;
use crate::addr::{ata_for, ata_of};
use crate::arith::{fee_of, fee_split};
use crate::errors::SwiftErr;
use crate::keys::AccountId;
use crate::records::{Config, Merchant, WithdrawEvent};
use crate::transfer::{TransferPlan, TransferRequest};

verus! {

/// Accounts for [`withdraw`].  The host has resolved the merchant record at
/// `merchant_key` and verified that `merchant_authority` signed.
#[derive(Clone, Copy, Debug, PartialEq, Eq)]
pub struct Withdraw {
    pub config: Config,
    /// The merchant paying itself out.
    pub merchant: Merchant,
    /// Address of the merchant record, carried into the event.
    pub merchant_key: AccountId,
    /// The treasury's token sub-account as supplied by the caller; checked
    /// against the derivation.
    pub treasury_usdc_ata: AccountId,
    /// The merchant's personal wallet sub-account receiving the payout.
    pub merchant_usdc_ata: AccountId,
    /// The identity asking for the payout (verified signer).
    pub merchant_authority: AccountId,
}

/// Only the merchant's registered authority may withdraw.
pub open spec fn withdraw_authorized(ctx: Withdraw) -> bool {
    ctx.merchant.merchant_authority@ == ctx.merchant_authority@
}

/// The supplied treasury sub-account matches the one derived from the
/// merchant's treasury record and the reference mint.
pub open spec fn withdraw_treasury_ata_ok(ctx: Withdraw) -> bool {
    ctx.treasury_usdc_ata@ == ata_of(ctx.merchant.treasury@, ctx.config.usdc_mint@)
}

/// Executes a payout of `amount_usdc` at time `now`.
///
/// The caller must be the merchant's registered authority and the supplied
/// treasury sub-account must match its derivation; exactly then the call
/// succeeds.  The returned plan moves the amount minus the withdrawal fee
/// from the treasury's sub-account to the merchant's wallet, and the fee, if
/// positive, to the platform's fee sub-account.  Both transfers are
/// authorized by the treasury record, whose signing capability the platform
/// holds — never by the caller.
pub fn withdraw(ctx: &Withdraw, amount_usdc: u64, now: i64) -> (r: Result<
    (WithdrawEvent, TransferPlan),
    SwiftErr,
>)
    requires
        ctx.config.wf(),
    ensures
        r is Ok <==> withdraw_authorized(*ctx) && withdraw_treasury_ata_ok(*ctx),
        r matches Err(e) ==> {
            &&& (e == SwiftErr::Unauthorized) <==> !withdraw_authorized(*ctx)
            &&& (e == SwiftErr::InvalidTreasuryAta) <==> (withdraw_authorized(*ctx)
                && !withdraw_treasury_ata_ok(*ctx))
        },
        r matches Ok((ev, plan)) ==> {
            let fee = fee_of(amount_usdc as int, ctx.config.withdraw_fee_bps as int);
            &&& ev.merchant == ctx.merchant_key
            &&& ev.amount_usdc == amount_usdc
            &&& ev.fee_usdc == fee
            &&& ev.ts == now
            &&& plan.to_recipient.from == ctx.treasury_usdc_ata
            &&& plan.to_recipient.to == ctx.merchant_usdc_ata
            &&& plan.to_recipient.authority == ctx.merchant.treasury
            &&& plan.to_recipient.amount_usdc + fee == amount_usdc
            &&& (fee > 0 ==> (plan.fee matches Some(f) && f.from == ctx.treasury_usdc_ata
                && f.to == ctx.config.authority_treasury && f.authority == ctx.merchant.treasury
                && f.amount_usdc == fee))
            &&& (fee == 0 ==> plan.fee is None)
        },
{
    // Only the merchant's registered authority may withdraw.
    if !ctx.merchant.merchant_authority.key_eq(&ctx.merchant_authority) {
        return Err(SwiftErr::Unauthorized);
    }
    let expected = ata_for(&ctx.merchant.treasury, &ctx.config.usdc_mint);
    if !ctx.treasury_usdc_ata.key_eq(&expected) {
        return Err(SwiftErr::InvalidTreasuryAta);
    }
    let (fee, to_merchant) = fee_split(amount_usdc, ctx.config.withdraw_fee_bps);
    let ev = WithdrawEvent { merchant: ctx.merchant_key, amount_usdc, fee_usdc: fee, ts: now };
    let fee_req = if fee > 0 {
        Some(TransferRequest {
            from: ctx.treasury_usdc_ata,
            to: ctx.config.authority_treasury,
            authority: ctx.merchant.treasury,
            amount_usdc: fee,
        })
    } else {
        None
    };
    let plan = TransferPlan {
        to_recipient: TransferRequest {
            from: ctx.treasury_usdc_ata,
            to: ctx.merchant_usdc_ata,
            authority: ctx.merchant.treasury,
            amount_usdc: to_merchant,
        },
        fee: fee_req,
    };
    Ok((ev, plan))
}

} // verus!
