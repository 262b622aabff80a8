//! What the ledger client reports to this library.

use crate::status::{STATUS_CONFIRMED, STATUS_FINALIZED, STATUS_PROCESSING};
use vstd::prelude::*;

verus! {

/// Why a call to the ledger client did not succeed.
#[derive(Clone, Copy, Debug, PartialEq, Eq, Structural)]
pub enum LedgerError {
    /// The network call failed; the caller may retry later.
    Unavailable,
    /// The ledger refused the submitted transaction.
    Rejected,
}

/// The ledger's acknowledgment tiers for a submitted transaction.
#[derive(Clone, Copy, Debug, PartialEq, Eq, Structural)]
pub enum ConfirmationLevel {
    Processed,
    Confirmed,
    Finalized,
}

/// The answer to a status query for one signature: the level that the ledger
/// reports, `None` where it has not seen the signature, or the failure of
/// the query.
pub type StatusReply = Result<Option<ConfirmationLevel>, LedgerError>;

impl ConfirmationLevel {
    /// The record status that this level implies as a floor.
    pub open spec fn implied_status(self) -> u16 {
        match self {
            ConfirmationLevel::Processed => STATUS_PROCESSING,
            ConfirmationLevel::Confirmed => STATUS_CONFIRMED,
            ConfirmationLevel::Finalized => STATUS_FINALIZED,
        }
    }

    /// The record status that this level implies as a floor.
    pub fn status(self) -> (s: u16)
        ensures
            s == self.implied_status(),
    {
        match self {
            ConfirmationLevel::Processed => STATUS_PROCESSING,
            ConfirmationLevel::Confirmed => STATUS_CONFIRMED,
            ConfirmationLevel::Finalized => STATUS_FINALIZED,
        }
    }
}

} // verus!
