//! Status codes of a transaction record and the transitions that the engine writes.

use crate::timestamp::Timestamp;
use vstd::prelude::*;

verus! {

/// The record exists locally and has not been submitted.
pub const STATUS_CREATED: u16 = 0;

/// The transaction was submitted and the ledger returned its signature.
pub const STATUS_SENT: u16 = 1;

/// The ledger has processed the transaction.
pub const STATUS_PROCESSING: u16 = 2;

/// The ledger has confirmed the transaction.
pub const STATUS_CONFIRMED: u16 = 3;

/// The ledger has finalized the transaction: the terminal success state.
pub const STATUS_FINALIZED: u16 = 4;

/// The validity window passed before finalization: the terminal failure state.
pub const STATUS_FAILED: u16 = 5;

/// A status after which a record is never read or written by the engine again.
pub open spec fn is_terminal(status: u16) -> bool {
    status == STATUS_FINALIZED || status == STATUS_FAILED
}

/// `to` may follow `from` in the life of one record: the status never moves
/// backward, except that failure may be entered from any status.
pub open spec fn may_follow(from: u16, to: u16) -> bool {
    from <= to || to == STATUS_FAILED
}

/// Whether `status` is terminal.
pub fn status_is_terminal(status: u16) -> (b: bool)
    ensures
        b == is_terminal(status),
{
    status == STATUS_FINALIZED || status == STATUS_FAILED
}

/// A change of status that the engine writes.
#[derive(Clone, Copy, Debug, PartialEq, Eq, Structural)]
pub enum Transition {
    Processing,
    Confirmed,
    Finalized,
    Failed,
}

impl Transition {
    /// The status that the transition leads to.
    pub open spec fn target(self) -> u16 {
        match self {
            Transition::Processing => STATUS_PROCESSING,
            Transition::Confirmed => STATUS_CONFIRMED,
            Transition::Finalized => STATUS_FINALIZED,
            Transition::Failed => STATUS_FAILED,
        }
    }

    /// The status that the transition leads to.
    pub fn status(self) -> (s: u16)
        ensures
            s == self.target(),
    {
        match self {
            Transition::Processing => STATUS_PROCESSING,
            Transition::Confirmed => STATUS_CONFIRMED,
            Transition::Finalized => STATUS_FINALIZED,
            Transition::Failed => STATUS_FAILED,
        }
    }

    /// The timestamp that is written with the transition when it is made at
    /// the instant `at`: confirmation and finalization record the instant,
    /// the other two have no timestamp of their own.
    pub open spec fn stamped(self, at: Timestamp) -> Option<Timestamp> {
        match self {
            Transition::Confirmed | Transition::Finalized => Some(at),
            Transition::Processing | Transition::Failed => None,
        }
    }

    /// The timestamp that is written with the transition when it is made at
    /// the instant `at`.
    pub fn stamp(self, at: Timestamp) -> (datetime: Option<Timestamp>)
        ensures
            datetime == self.stamped(at),
    {
        match self {
            Transition::Confirmed | Transition::Finalized => Some(at),
            Transition::Processing | Transition::Failed => None,
        }
    }
}

} // verus!
