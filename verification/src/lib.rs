//! Lifecycle tracking for transactions submitted to an eventually-consistent
//! ledger: the record model, an in-memory transaction store, the
//! reconciliation engine that polls the ledger and applies monotonic status
//! transitions, and the decisions of the submission path.

pub mod engine;
pub mod guarantees;
pub mod ledger;
pub mod models;
pub mod payload;
pub mod solana_transactions_repository;
pub mod status;
pub mod submission;
pub mod timestamp;
