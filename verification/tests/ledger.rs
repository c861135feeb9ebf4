//! End-to-end tests of the accounting core on concrete values.

use swiftment::arith::fee_split;
use swiftment::errors::SwiftErr;
use swiftment::keys::AccountId;
use swiftment::payment::{pay, Pay};
use swiftment::records::{Config, Merchant, Treasury, UserPlatform};
use swiftment::setup::{
    initialize, opt_in, register_merchant, register_user, set_daily_limit, Initialize, OptIn,
    RegisterMerchant, RegisterUser, SetDailyLimit,
};
use swiftment::time::same_utc_day;
use swiftment::withdrawal::{withdraw, Withdraw};

fn id(b: u8) -> AccountId {
    AccountId { bytes: [b; 32] }
}

fn test_config(purchase_fee_bps: u16, withdraw_fee_bps: u16) -> Config {
    let ctx = Initialize { authority: id(1), authority_treasury: id(2), bump: 255 };
    initialize(&ctx, id(3), purchase_fee_bps, withdraw_fee_bps).unwrap()
}

/// A merchant and treasury registered against `config`, with the treasury's
/// token sub-account derived for real.
fn test_merchant(config: &Config) -> (Merchant, Treasury) {
    let ctx = RegisterMerchant {
        merchant_authority: id(10),
        merchant_key: id(11),
        treasury_key: id(12),
        merchant_bump: 254,
        treasury_bump: 253,
    };
    register_merchant(config, &ctx)
}

fn test_subscription(daily_limit_usdc: u64, spent_today_usdc: u64, last_reset_unix: i64) -> UserPlatform {
    UserPlatform {
        user: id(20),
        merchant: id(11),
        daily_limit_usdc,
        spent_today_usdc,
        last_reset_unix,
        bump: 252,
    }
}

fn pay_ctx(config: Config, daily_limit: u64, spent: u64, last_reset: i64) -> Pay {
    let (merchant, treasury) = test_merchant(&config);
    Pay {
        config,
        merchant,
        user_platform: test_subscription(daily_limit, spent, last_reset),
        treasury_usdc_ata: treasury.usdc_ata,
        user_authority: id(21),
    }
}

fn withdraw_ctx(config: Config) -> Withdraw {
    let (merchant, treasury) = test_merchant(&config);
    Withdraw {
        config,
        merchant,
        merchant_key: id(11),
        treasury_usdc_ata: treasury.usdc_ata,
        merchant_usdc_ata: id(30),
        merchant_authority: id(10),
    }
}

#[test]
fn initialize_accepts_valid_bps() {
    let ctx = Initialize { authority: id(1), authority_treasury: id(2), bump: 255 };
    for bps in [0u16, 1, 250, 9999, 10000] {
        let cfg = initialize(&ctx, id(3), bps, bps).unwrap();
        assert_eq!(cfg.purchase_fee_bps, bps);
        assert_eq!(cfg.withdraw_fee_bps, bps);
        assert_eq!(cfg.authority, id(1));
        assert_eq!(cfg.authority_treasury, id(2));
        assert_eq!(cfg.usdc_mint, id(3));
        assert_eq!(cfg.bump, 255);
    }
}

#[test]
fn initialize_rejects_high_bps() {
    let ctx = Initialize { authority: id(1), authority_treasury: id(2), bump: 255 };
    assert_eq!(initialize(&ctx, id(3), 10001, 0), Err(SwiftErr::InvalidBps));
    assert_eq!(initialize(&ctx, id(3), 0, 10001), Err(SwiftErr::InvalidBps));
    assert_eq!(initialize(&ctx, id(3), u16::MAX, u16::MAX), Err(SwiftErr::InvalidBps));
}

#[test]
fn fee_split_scenario() {
    assert_eq!(fee_split(1_000_000, 250), (25_000, 975_000));
}

#[test]
fn fee_split_edges() {
    assert_eq!(fee_split(200_000, 0), (0, 200_000));
    assert_eq!(fee_split(123, 10000), (123, 0));
    assert_eq!(fee_split(999, 1), (0, 999));
    assert_eq!(fee_split(19_999, 50), (99, 19_900));
    assert_eq!(fee_split(0, 10000), (0, 0));
    assert_eq!(fee_split(u64::MAX, 10000), (u64::MAX, 0));
}

#[test]
fn fee_split_is_exact() {
    for amount in [0u64, 1, 9999, 10_000, 123_456_789, u64::MAX] {
        for bps in [0u16, 1, 250, 5000, 9999, 10000] {
            let (fee, to_merchant) = fee_split(amount, bps);
            assert_eq!(fee, ((amount as u128 * bps as u128) / 10_000) as u64);
            assert_eq!(fee + to_merchant, amount);
        }
    }
}

#[test]
fn register_user_defaults_to_unlimited() {
    let user = register_user(&RegisterUser { user_authority: id(20), bump: 251 });
    assert_eq!(user.owner, id(20));
    assert_eq!(user.default_daily_limit_usdc, 0);
    assert_eq!(user.bump, 251);
}

#[test]
fn opt_in_starts_fresh() {
    let up = opt_in(&OptIn { user_key: id(20), merchant_key: id(11), bump: 250 }, 500_000, 1_700_000_000);
    assert_eq!(up.user, id(20));
    assert_eq!(up.merchant, id(11));
    assert_eq!(up.daily_limit_usdc, 500_000);
    assert_eq!(up.spent_today_usdc, 0);
    assert_eq!(up.last_reset_unix, 1_700_000_000);
}

#[test]
fn set_daily_limit_touches_only_the_limit() {
    let user = register_user(&RegisterUser { user_authority: id(20), bump: 251 });
    let mut ctx = SetDailyLimit {
        user,
        user_platform: test_subscription(500_000, 123_456, 1_700_000_000),
        user_authority: id(20),
    };
    assert_eq!(set_daily_limit(&mut ctx, 750_000), Ok(()));
    assert_eq!(ctx.user_platform.daily_limit_usdc, 750_000);
    assert_eq!(ctx.user_platform.spent_today_usdc, 123_456);
    assert_eq!(ctx.user_platform.last_reset_unix, 1_700_000_000);
}

#[test]
fn set_daily_limit_requires_the_owner() {
    let user = register_user(&RegisterUser { user_authority: id(20), bump: 251 });
    let before = test_subscription(500_000, 123_456, 1_700_000_000);
    let mut ctx = SetDailyLimit { user, user_platform: before, user_authority: id(99) };
    assert_eq!(set_daily_limit(&mut ctx, 750_000), Err(SwiftErr::Unauthorized));
    assert_eq!(ctx.user_platform, before);
}

#[test]
fn pay_splits_and_updates_counter() {
    let mut ctx = pay_ctx(test_config(250, 0), 0, 0, 1_700_000_000);
    let (ev, plan) = pay(&mut ctx, 1_000_000, 1_700_000_100).unwrap();
    assert_eq!(ev.user, id(20));
    assert_eq!(ev.merchant, id(11));
    assert_eq!(ev.amount_usdc, 1_000_000);
    assert_eq!(ev.fee_usdc, 25_000);
    assert_eq!(ev.ts, 1_700_000_100);
    assert_eq!(plan.to_recipient.amount_usdc, 975_000);
    assert_eq!(plan.to_recipient.to, ctx.treasury_usdc_ata);
    assert_eq!(plan.to_recipient.authority, id(21));
    let fee = plan.fee.unwrap();
    assert_eq!(fee.amount_usdc, 25_000);
    assert_eq!(fee.from, plan.to_recipient.from);
    assert_eq!(ctx.user_platform.spent_today_usdc, 1_000_000);
    assert_eq!(ctx.user_platform.last_reset_unix, 1_700_000_000);
}

#[test]
fn pay_fails_over_limit_without_state_change() {
    let mut ctx = pay_ctx(test_config(250, 0), 500_000, 400_000, 1_700_000_000);
    let before = ctx;
    let r = pay(&mut ctx, 150_000, 1_700_000_100);
    assert_eq!(r, Err(SwiftErr::DailyLimitExceeded));
    assert_eq!(ctx, before);
}

#[test]
fn pay_fills_the_cap_exactly() {
    let mut ctx = pay_ctx(test_config(0, 0), 500_000, 400_000, 1_700_000_000);
    let (_, plan) = pay(&mut ctx, 100_000, 1_700_000_100).unwrap();
    assert_eq!(plan.to_recipient.amount_usdc, 100_000);
    assert!(plan.fee.is_none());
    assert_eq!(ctx.user_platform.spent_today_usdc, 500_000);
}

#[test]
fn pay_resets_on_a_new_day() {
    // Several whole days elapsed since the last reset; the counter starts over.
    let mut ctx = pay_ctx(test_config(0, 0), 500_000, 499_999, 86_399);
    let now = 86_400 * 5 + 10;
    let (ev, _) = pay(&mut ctx, 450_000, now).unwrap();
    assert_eq!(ev.fee_usdc, 0);
    assert_eq!(ctx.user_platform.spent_today_usdc, 450_000);
    assert_eq!(ctx.user_platform.last_reset_unix, now);
}

#[test]
fn pay_accumulates_within_a_day() {
    let mut ctx = pay_ctx(test_config(0, 0), 500_000, 0, 1_700_000_000);
    pay(&mut ctx, 200_000, 1_700_000_010).unwrap();
    pay(&mut ctx, 200_000, 1_700_000_020).unwrap();
    assert_eq!(ctx.user_platform.spent_today_usdc, 400_000);
    assert!(ctx.user_platform.spent_today_usdc <= ctx.user_platform.daily_limit_usdc);
    let before = ctx;
    assert_eq!(pay(&mut ctx, 200_000, 1_700_000_030), Err(SwiftErr::DailyLimitExceeded));
    assert_eq!(ctx, before);
}

#[test]
fn pay_failed_after_day_boundary_keeps_the_old_stamp() {
    // The rollover happened in memory, but the operation failed: nothing,
    // not even the reset, may be kept.
    let mut ctx = pay_ctx(test_config(0, 0), 100, 50, 86_000);
    let before = ctx;
    assert_eq!(pay(&mut ctx, 200, 86_400 * 3), Err(SwiftErr::DailyLimitExceeded));
    assert_eq!(ctx, before);
    assert_eq!(ctx.user_platform.last_reset_unix, 86_000);
}

#[test]
fn pay_rejects_a_wrong_treasury_sub_account() {
    let mut ctx = pay_ctx(test_config(250, 0), 100, 0, 1_700_000_000);
    ctx.treasury_usdc_ata = id(77);
    let before = ctx;
    // The sub-account mismatch wins even though the amount is over the cap too.
    assert_eq!(pay(&mut ctx, 1_000_000, 1_700_000_100), Err(SwiftErr::InvalidTreasuryAta));
    assert_eq!(ctx, before);
}

#[test]
fn pay_unlimited_counter_saturates() {
    let mut ctx = pay_ctx(test_config(0, 0), 0, u64::MAX - 5, 1_700_000_000);
    pay(&mut ctx, 100, 1_700_000_100).unwrap();
    assert_eq!(ctx.user_platform.spent_today_usdc, u64::MAX);
}

#[test]
fn pay_draws_from_the_users_derived_sub_account() {
    let mut ctx = pay_ctx(test_config(250, 0), 0, 0, 1_700_000_000);
    let (_, plan) = pay(&mut ctx, 1_000_000, 1_700_000_100).unwrap();
    let user = anchor_lang::prelude::Pubkey::new_from_array(ctx.user_authority.bytes);
    let mint = anchor_lang::prelude::Pubkey::new_from_array(ctx.config.usdc_mint.bytes);
    let expected = anchor_spl::associated_token::get_associated_token_address(&user, &mint);
    assert_eq!(plan.to_recipient.from.bytes, expected.to_bytes());
    // The derivation is a real hash, not any of its inputs handed back.
    assert_ne!(plan.to_recipient.from, ctx.user_authority);
    assert_ne!(plan.to_recipient.from, ctx.config.usdc_mint);
}

#[test]
fn registered_treasury_sub_account_matches_the_derivation() {
    let config = test_config(250, 100);
    let (merchant, treasury) = test_merchant(&config);
    let owner = anchor_lang::prelude::Pubkey::new_from_array(merchant.treasury.bytes);
    let mint = anchor_lang::prelude::Pubkey::new_from_array(config.usdc_mint.bytes);
    let expected = anchor_spl::associated_token::get_associated_token_address(&owner, &mint);
    assert_eq!(treasury.usdc_ata.bytes, expected.to_bytes());
    assert_ne!(treasury.usdc_ata, merchant.treasury);
    assert_ne!(treasury.usdc_ata, config.usdc_mint);
    assert_eq!(treasury.merchant, id(11));
    assert_eq!(merchant.merchant_authority, id(10));
    assert_eq!(merchant.treasury, id(12));
}

#[test]
fn withdraw_zero_fee_is_a_single_transfer() {
    let ctx = withdraw_ctx(test_config(250, 0));
    let (ev, plan) = withdraw(&ctx, 200_000, 1_700_000_000).unwrap();
    assert_eq!(ev.fee_usdc, 0);
    assert_eq!(ev.amount_usdc, 200_000);
    assert_eq!(ev.merchant, id(11));
    assert_eq!(plan.to_recipient.amount_usdc, 200_000);
    assert_eq!(plan.to_recipient.from, ctx.treasury_usdc_ata);
    assert_eq!(plan.to_recipient.to, id(30));
    assert_eq!(plan.to_recipient.authority, ctx.merchant.treasury);
    assert!(plan.fee.is_none());
}

#[test]
fn withdraw_skims_the_fee_to_the_platform() {
    let ctx = withdraw_ctx(test_config(0, 300));
    let (ev, plan) = withdraw(&ctx, 1_000_000, 1_700_000_000).unwrap();
    assert_eq!(ev.fee_usdc, 30_000);
    assert_eq!(plan.to_recipient.amount_usdc, 970_000);
    let fee = plan.fee.unwrap();
    assert_eq!(fee.amount_usdc, 30_000);
    assert_eq!(fee.from, ctx.treasury_usdc_ata);
    assert_eq!(fee.to, ctx.config.authority_treasury);
    // Both transfers are authorized by the treasury record, not the caller.
    assert_eq!(fee.authority, ctx.merchant.treasury);
    assert_eq!(plan.to_recipient.authority, ctx.merchant.treasury);
}

#[test]
fn withdraw_requires_the_merchant_authority() {
    let mut ctx = withdraw_ctx(test_config(0, 300));
    ctx.merchant_authority = id(99);
    assert_eq!(withdraw(&ctx, 200_000, 1_700_000_000), Err(SwiftErr::Unauthorized));
    // The authorization check comes before the sub-account check.
    ctx.treasury_usdc_ata = id(77);
    assert_eq!(withdraw(&ctx, 200_000, 1_700_000_000), Err(SwiftErr::Unauthorized));
}

#[test]
fn withdraw_rejects_a_wrong_treasury_sub_account() {
    let mut ctx = withdraw_ctx(test_config(0, 300));
    ctx.treasury_usdc_ata = id(77);
    assert_eq!(withdraw(&ctx, 200_000, 1_700_000_000), Err(SwiftErr::InvalidTreasuryAta));
}

#[test]
fn utc_day_boundaries_are_multiples_of_86400() {
    assert!(same_utc_day(0, 86_399));
    assert!(!same_utc_day(86_399, 86_400));
    assert!(same_utc_day(86_400, 172_799));
    assert!(!same_utc_day(86_400, 86_400 * 9));
    assert!(same_utc_day(1_700_000_000, 1_700_000_000));
}
