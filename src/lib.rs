//! Accounting and withdrawal workflow of pooled investment funds on an account-based ledger.
//!
//! - `ledger`: a fund's aggregate state and its share price (shares for a deposit, base
//!   units for shares).
//! - `position`: one investor's stake in a fund.
//! - `accounting`: deposits, direct withdrawals and full exits.
//! - `fees`: the fee waterfall applied to a gross payout.
//! - `distribution`: pro-rata batch payouts, the last recipient taking the remainder.
//! - `swap`: checks around a delegated call to an external exchange, and its settlement by
//!   balance delta.
//! - `withdrawal`: the proportional-exit state machine (initiate, liquidation legs,
//!   finalization scaled by the completion factor).
//! - `token_account`: what the logic reads of token-program accounts.
//! - `admin`: fund set-up and settings, value attestations, trade records, housekeeping.
//!
//! Ledger keys are `address::Address` values; every operation returns a `Result` and leaves
//! its state untouched when it refuses.
pub mod accounting;
pub mod address;
pub mod admin;
pub mod distribution;
pub mod error;
pub mod fees;
pub mod ledger;
pub mod position;
pub mod swap;
pub mod token_account;
pub mod withdrawal;
