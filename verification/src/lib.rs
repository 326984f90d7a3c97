//! Quadratic-funding crowdfunding ledger: contribution accounting with
//! deterministic quadratic-area bookkeeping, matching-pool settlement,
//! funding-gated milestone tracking, and fund release to project owners.
//!
//! The library holds the accounting engine only. Account storage, signature
//! checking, vault transfers and notification delivery belong to the host
//! ledger: operations here take the referenced records and plain values (vault
//! balances, timestamps) as arguments, mutate the records atomically or not at
//! all, and return the notification record for the host to deliver.

pub mod contribute;
pub mod error;
pub mod math;
pub mod milestone;
pub mod project;
pub mod round;
pub mod settle;
pub mod state;
pub mod withdraw;
