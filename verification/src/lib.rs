//! A verified ledger engine for a single crowdfunding fund.
//!
//! The library models the lifecycle of one fund record and a stack of
//! donation records: `Create` allocates the fund, `Donate` opens a donation
//! and moves value into the fund, `Close` reclaims the most recently opened
//! donation, and `Withdraw` destroys an empty fund and pays its balance out.
//! Record addresses are derived deterministically from fixed namespace tags.

pub mod address;
pub mod bytes;
pub mod errors;
pub mod ledger;
