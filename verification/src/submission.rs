//! The decisions of the submission path: which record a new transaction
//! starts as, whether a signed payload may be submitted for a record, and
//! what is written once the ledger has answered.

use crate::ledger::LedgerError;
use crate::payload::{base64_bytes, base64_text, decode_payload, encodable_len, encode_payload};
use crate::solana_transactions_repository::{
    numbered, rows_marked_sent, NewRow, NewSolanaTransaction, Row, SolanaTransaction, StoreError,
    TransactionStore,
};
use crate::status::STATUS_CREATED;
use crate::timestamp::Timestamp;
use vstd::prelude::*;

verus! {

/// Why a submission did not go through.
#[derive(Clone, Copy, Debug, PartialEq, Eq, Structural)]
pub enum SubmitError {
    /// The record could not be read from the store.
    Store(StoreError),
    /// The record has left the created state: it was submitted before.
    AlreadySubmitted,
    /// The signed payload is not base64 text.
    MalformedPayload,
    /// The ledger did not take the transaction.
    Ledger(LedgerError),
}

/// The record that a new transaction starts as, given the stored form of
/// its payload: created, not sent.
pub fn pending_record(
    blockhash: String,
    last_valid_block_height: u64,
    tx: String,
    created_at: Timestamp,
) -> (new_tx: NewSolanaTransaction)
    ensures
        new_tx@ == (NewRow {
            blockhash: blockhash@,
            last_valid_block_height,
            status: STATUS_CREATED,
            tx: tx@,
            created_at,
            sent_at: None,
        }),
{
    NewSolanaTransaction {
        blockhash,
        last_valid_block_height,
        status: STATUS_CREATED,
        tx,
        created_at,
        sent_at: None,
    }
}

/// The record that a new transaction starts as: created, not sent, its
/// payload stored as base64 text. `None` exactly when the payload is too
/// long to be encoded.
pub fn new_pending(
    blockhash: String,
    last_valid_block_height: u64,
    payload: &[u8],
    created_at: Timestamp,
) -> (record: Option<NewSolanaTransaction>)
    ensures
        match record {
            Some(new_tx) => encodable_len(payload@.len()) && new_tx@ == (NewRow {
                blockhash: blockhash@,
                last_valid_block_height,
                status: STATUS_CREATED,
                tx: base64_text(payload@),
                created_at,
                sent_at: None,
            }),
            None => !encodable_len(payload@.len()),
        },
{
    match encode_payload(payload) {
        Some(tx) => Some(pending_record(blockhash, last_valid_block_height, tx, created_at)),
        None => None,
    }
}

/// The result of a lookup, as rows.
pub open spec fn lookup_view(lookup: Result<SolanaTransaction, StoreError>) -> Result<
    Row,
    StoreError,
> {
    match lookup {
        Ok(record) => Ok(record@),
        Err(e) => Err(e),
    }
}

/// The bytes of an optional payload.
pub open spec fn payload_view(payload: Option<Vec<u8>>) -> Option<Seq<u8>> {
    match payload {
        Some(bytes) => Some(bytes@),
        None => None,
    }
}

/// The bytes of an admitted payload, or the refusal.
pub open spec fn admission_view(admission: Result<Vec<u8>, SubmitError>) -> Result<
    Seq<u8>,
    SubmitError,
> {
    match admission {
        Ok(bytes) => Ok(bytes@),
        Err(e) => Err(e),
    }
}

/// Whether a signed payload may be submitted, given the lookup of its
/// record and the decoding of its text: the record must have been found and
/// still be in the created state, and the text must decode. The checks are
/// made in this order, and the first that fails names the error.
pub open spec fn admitted(lookup: Result<Row, StoreError>, decoded: Option<Seq<u8>>) -> Result<
    Seq<u8>,
    SubmitError,
> {
    match lookup {
        Err(e) => Err(SubmitError::Store(e)),
        Ok(row) => if row.status != STATUS_CREATED {
            Err(SubmitError::AlreadySubmitted)
        } else {
            match decoded {
                None => Err(SubmitError::MalformedPayload),
                Some(bytes) => Ok(bytes),
            }
        },
    }
}

/// Decides whether a signed payload may be submitted, given the lookup of
/// its record and the decoding of its text; returns the bytes to submit.
pub fn check_submission(lookup: &Result<SolanaTransaction, StoreError>, decoded: Option<Vec<u8>>) -> (result:
    Result<Vec<u8>, SubmitError>)
    ensures
        admission_view(result) == admitted(lookup_view(*lookup), payload_view(decoded)),
{
    match lookup {
        Err(e) => Err(SubmitError::Store(*e)),
        Ok(record) => {
            if record.status != STATUS_CREATED {
                Err(SubmitError::AlreadySubmitted)
            } else {
                match decoded {
                    None => Err(SubmitError::MalformedPayload),
                    Some(bytes) => Ok(bytes),
                }
            }
        },
    }
}

/// Decides whether the signed payload `encoded_tx` may be submitted for the
/// record that `lookup` found; returns the bytes to submit.
pub fn begin_submission(lookup: &Result<SolanaTransaction, StoreError>, encoded_tx: &str) -> (result:
    Result<Vec<u8>, SubmitError>)
    ensures
        admission_view(result) == admitted(lookup_view(*lookup), base64_bytes(encoded_tx@)),
{
    check_submission(lookup, decode_payload(encoded_tx))
}

/// The write that follows a successful submission.
#[derive(Debug)]
pub struct SentMark {
    pub tx_id: i32,
    pub signature: String,
    pub sent_at: Timestamp,
    pub signed_tx: String,
}

/// The mathematical value of a `SentMark`.
pub struct SentMarkView {
    pub tx_id: i32,
    pub signature: Seq<char>,
    pub sent_at: Timestamp,
    pub signed_tx: Seq<char>,
}

impl View for SentMark {
    type V = SentMarkView;

    open spec fn view(&self) -> SentMarkView {
        SentMarkView {
            tx_id: self.tx_id,
            signature: self.signature@,
            sent_at: self.sent_at,
            signed_tx: self.signed_tx@,
        }
    }
}

/// Decides what follows the ledger's answer to a submission. Where the
/// ledger returned a signature, the record is to be marked as sent with it,
/// with the signed payload and `sent_at`. Where it did not, nothing is to
/// be written: the record stays as it is.
pub fn conclude_submission(
    tx_id: i32,
    answer: Result<String, LedgerError>,
    sent_at: Timestamp,
    signed_tx: String,
) -> (result: Result<SentMark, SubmitError>)
    ensures
        match answer {
            Ok(signature) => result matches Ok(mark) && mark@ == (SentMarkView {
                tx_id,
                signature: signature@,
                sent_at,
                signed_tx: signed_tx@,
            }),
            Err(e) => result matches Err(refusal) && refusal == SubmitError::Ledger(e),
        },
{
    match answer {
        Ok(signature) => Ok(SentMark { tx_id, signature, sent_at, signed_tx }),
        Err(e) => Err(SubmitError::Ledger(e)),
    }
}

/// The answer that the caller of the submission path gets, where `outcome`
/// is what followed the ledger's answer and `written` is the store's answer
/// to the write of the mark: success exactly when the ledger took the
/// transaction and the mark was written. Where the ledger did not take it,
/// the refusal is passed on and `written` is not looked at; where the store
/// failed, its error is the answer.
pub fn submission_reply(
    outcome: &Result<SentMark, SubmitError>,
    written: &Result<(), StoreError>,
) -> (reply: Result<(), SubmitError>)
    ensures
        reply is Ok <==> (*outcome is Ok && *written is Ok),
        reply == (match *outcome {
            Err(refusal) => Err::<(), SubmitError>(refusal),
            Ok(_) => match *written {
                Ok(_) => Ok::<(), SubmitError>(()),
                Err(e) => Err::<(), SubmitError>(SubmitError::Store(e)),
            },
        }),
{
    match outcome {
        Err(refusal) => Err(*refusal),
        Ok(_) => match written {
            Ok(_) => Ok(()),
            Err(e) => Err(SubmitError::Store(*e)),
        },
    }
}

impl SentMark {
    /// Writes the mark to the store, with `updated_at` as the instant of
    /// the update. A record that has left the created state since it was
    /// looked up stays as it is.
    pub fn record(self, store: &mut TransactionStore, updated_at: Timestamp) -> (result: Result<
        (),
        StoreError,
    >)
        ensures
            result is Ok,
            numbered(final(store)@),
            final(store)@ == rows_marked_sent(
                old(store)@,
                self.tx_id,
                self.signature@,
                self.sent_at,
                self.signed_tx@,
                updated_at,
            ),
    {
        SolanaTransaction::mark_sent(
            store,
            self.tx_id,
            self.signature,
            self.sent_at,
            self.signed_tx,
            updated_at,
        )
    }
}

} // verus!
