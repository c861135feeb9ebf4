//! Fee arithmetic.
//!
//! A fee rate is given in basis points (1 bps = 0.01%, so 10000 bps = 100%).
//! The platform's cut of an amount is rounded down, and the remainder goes to
//! the recipient, so a split never creates or destroys value.

use vstd::prelude::*;
use vstd::arithmetic::div_mod::{
    lemma_div_is_ordered, lemma_div_multiples_vanish, lemma_div_pos_is_pos,
};
use vstd::arithmetic::mul::{
    lemma_mul_inequality, lemma_mul_nonnegative, lemma_mul_upper_bound,
};

verus! {

/// The platform's cut of `amount` at `bps` basis points, rounded down.
pub open spec fn fee_of(amount: int, bps: int) -> int {
    amount * bps / 10000
}

/// A fee at a rate of at most 100% never exceeds the amount it is taken from.
pub proof fn lemma_fee_within_amount(amount: int, bps: int)
    requires
        0 <= amount,
        0 <= bps <= 10000,
    ensures
        0 <= fee_of(amount, bps) <= amount,
{
    lemma_mul_nonnegative(amount, bps);
    lemma_div_pos_is_pos(amount * bps, 10000);
    lemma_mul_inequality(bps, 10000, amount);
    lemma_div_is_ordered(amount * bps, amount * 10000, 10000);
    lemma_div_multiples_vanish(amount, 10000);
}

/// `a + b`, capped at the largest representable amount.
pub open spec fn sat_add(a: int, b: int) -> int {
    if a + b <= u64::MAX {
        a + b
    } else {
        u64::MAX as int
    }
}

/// Adds two token amounts, saturating instead of overflowing.
pub fn saturating_add_u64(a: u64, b: u64) -> (r: u64)
    ensures
        r == sat_add(a as int, b as int),
{
    if a <= u64::MAX - b {
        a + b
    } else {
        u64::MAX
    }
}

/// Splits `amount_usdc` into the platform fee at `bps` basis points and the
/// share that reaches the recipient.  The fee is the floor of
/// `amount * bps / 10000`, and the two parts always add back up to the whole
/// amount.
pub fn fee_split(amount_usdc: u64, bps: u16) -> (r: (u64, u64))
    requires
        bps <= 10000,
    ensures
        r.0 == fee_of(amount_usdc as int, bps as int),
        r.0 <= amount_usdc,
        r.0 + r.1 == amount_usdc,
{
    proof {
        lemma_fee_within_amount(amount_usdc as int, bps as int);
        lemma_mul_upper_bound(amount_usdc as int, u64::MAX as int, bps as int, 10000);
    }
    let wide: u128 = (amount_usdc as u128) * (bps as u128);
    let fee: u64 = (wide / 10000) as u64;
    let to_merchant: u64 = amount_usdc - fee;
    (fee, to_merchant)
}

} // verus!
