//! The record type under its model name.

pub use crate::solana_transactions_repository::SolanaTransaction;
