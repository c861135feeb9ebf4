//! Accounting core of a merchant payment platform.
//!
//! The library tracks a global fee configuration, merchant records with their
//! platform-held treasuries, user records, and per-(user, merchant)
//! subscriptions carrying a daily spending cap.  Its two money-moving
//! operations, [`payment::pay`] and [`withdrawal::withdraw`], validate their
//! inputs, split each amount exactly into a platform fee and a recipient
//! share, and return the token transfers the host must perform.  The host
//! (token ledger, clock, record store, signature checks) stays outside; the
//! library works on plain values and every function here is verified.

pub mod addr;
pub mod arith;
pub mod errors;
pub mod keys;
pub mod payment;
pub mod records;
pub mod setup;
pub mod time;
pub mod transfer;
pub mod withdrawal;
