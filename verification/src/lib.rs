//! Settlement engine for time-bounded premium entitlements and referral
//! commissions.
//!
//! The crate holds the rules of the protocol as verified functions on plain
//! values: the soft account locks, the period and fee arithmetic, the reading
//! of entitlement records fetched from the key-value store, and the two
//! settlement steps with the payloads they commit.

pub mod admin;
pub mod contract;
pub mod decimal;
pub mod json;
pub mod ledger;
pub mod settlement;
pub mod social;
pub mod steps;
pub mod store;
pub mod subscription;
pub mod utils;
pub mod wide;
