//! Provider synchronization engine for a personal budgeting ledger.
//!
//! The library pulls account and transaction data fetched from external
//! bank-aggregation providers and reconciles it into the budgeting ledger
//! exactly once.  It covers the OAuth token lifecycle (freshness tracking,
//! eager refresh, persist-before-fetch ordering), the provider abstraction,
//! and the reconciliation algorithm built around a deterministic import id.
//! Network and file I/O are performed by the surrounding application, which
//! hands the engine plain values and carries out the actions it decides.

pub mod cli;
pub mod errors;
pub mod import_id;
pub mod laws;
pub mod ledger;
pub mod provider;
pub mod session;
pub mod sync;
pub mod token;
