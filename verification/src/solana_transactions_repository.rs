//! Transaction records and the store that keeps them.
//!
//! `TransactionStore` is the table of records held in memory, in the order of
//! their identifiers. The operations on it are associated functions of
//! `SolanaTransaction`; each states its effect on the sequence of rows.

use crate::status::{
    is_terminal, status_is_terminal, Transition, STATUS_CONFIRMED, STATUS_CREATED, STATUS_FAILED,
    STATUS_FINALIZED, STATUS_PROCESSING, STATUS_SENT,
};
use crate::timestamp::Timestamp;
use vstd::prelude::*;

verus! {

/// Why a store operation did not succeed.
#[derive(Clone, Copy, Debug, PartialEq, Eq, Structural)]
pub enum StoreError {
    /// The store cannot serve the request now; the caller may retry later.
    Unavailable,
    /// No record answers the lookup.
    NotFound,
    /// The status code is not one of the defined statuses.
    UnsupportedStatus,
}

/// The fields of a record that the caller supplies on insert.
#[derive(Debug)]
pub struct NewSolanaTransaction {
    pub blockhash: String,
    pub last_valid_block_height: u64,
    pub status: u16,
    pub tx: String,
    pub created_at: Timestamp,
    pub sent_at: Option<Timestamp>,
}

/// One tracked transaction.
#[derive(Debug)]
pub struct SolanaTransaction {
    /// Assigned by the store on insert; never changes.
    pub id: i32,
    /// The reference block hash; never changes.
    pub blockhash: String,
    /// The chain height from which on the transaction can no longer be
    /// included; never changes.
    pub last_valid_block_height: u64,
    /// One of the `STATUS_` codes.
    pub status: u16,
    /// The serialized transaction as base64 text: unsigned until the record
    /// is marked as sent, signed from then on.
    pub tx: String,
    pub created_at: Timestamp,
    /// The instant at which the record was marked as sent.
    pub updated_at: Option<Timestamp>,
    pub sent_at: Option<Timestamp>,
    pub confirmed_at: Option<Timestamp>,
    pub finalized_at: Option<Timestamp>,
    /// Informational; carried as stored, no operation of this library
    /// writes it.
    pub time_to_send: Option<u32>,
    /// Informational; carried as stored.
    pub time_to_confirmed: Option<u32>,
    /// Informational; carried as stored.
    pub time_to_finalized: Option<u32>,
    /// Informational; carried as stored.
    pub priority_fee: Option<u32>,
    /// The signature that the ledger returned on submission.
    pub tx_signature: Option<String>,
}

/// The mathematical value of a `NewSolanaTransaction`.
pub struct NewRow {
    pub blockhash: Seq<char>,
    pub last_valid_block_height: u64,
    pub status: u16,
    pub tx: Seq<char>,
    pub created_at: Timestamp,
    pub sent_at: Option<Timestamp>,
}

/// The mathematical value of a `SolanaTransaction`.
pub struct Row {
    pub id: i32,
    pub blockhash: Seq<char>,
    pub last_valid_block_height: u64,
    pub status: u16,
    pub tx: Seq<char>,
    pub created_at: Timestamp,
    pub updated_at: Option<Timestamp>,
    pub sent_at: Option<Timestamp>,
    pub confirmed_at: Option<Timestamp>,
    pub finalized_at: Option<Timestamp>,
    pub time_to_send: Option<u32>,
    pub time_to_confirmed: Option<u32>,
    pub time_to_finalized: Option<u32>,
    pub priority_fee: Option<u32>,
    pub tx_signature: Option<Seq<char>>,
}

/// The characters of an optional string.
pub open spec fn text_of(s: Option<String>) -> Option<Seq<char>> {
    match s {
        Some(t) => Some(t@),
        None => None,
    }
}

impl View for NewSolanaTransaction {
    type V = NewRow;

    open spec fn view(&self) -> NewRow {
        NewRow {
            blockhash: self.blockhash@,
            last_valid_block_height: self.last_valid_block_height,
            status: self.status,
            tx: self.tx@,
            created_at: self.created_at,
            sent_at: self.sent_at,
        }
    }
}

impl View for SolanaTransaction {
    type V = Row;

    open spec fn view(&self) -> Row {
        Row {
            id: self.id,
            blockhash: self.blockhash@,
            last_valid_block_height: self.last_valid_block_height,
            status: self.status,
            tx: self.tx@,
            created_at: self.created_at,
            updated_at: self.updated_at,
            sent_at: self.sent_at,
            confirmed_at: self.confirmed_at,
            finalized_at: self.finalized_at,
            time_to_send: self.time_to_send,
            time_to_confirmed: self.time_to_confirmed,
            time_to_finalized: self.time_to_finalized,
            priority_fee: self.priority_fee,
            tx_signature: text_of(self.tx_signature),
        }
    }
}

/// The rows that a vector of records stands for, in the same order.
pub open spec fn rows_of(records: Seq<SolanaTransaction>) -> Seq<Row> {
    records.map_values(|r: SolanaTransaction| r@)
}

impl Row {
    /// The row that an insert writes for `new_tx` under the identifier `id`.
    pub open spec fn fresh(id: i32, new_tx: NewRow) -> Row {
        Row {
            id,
            blockhash: new_tx.blockhash,
            last_valid_block_height: new_tx.last_valid_block_height,
            status: new_tx.status,
            tx: new_tx.tx,
            created_at: new_tx.created_at,
            updated_at: None,
            sent_at: new_tx.sent_at,
            confirmed_at: None,
            finalized_at: None,
            time_to_send: None,
            time_to_confirmed: None,
            time_to_finalized: None,
            priority_fee: None,
            tx_signature: None,
        }
    }

    /// This row after the one-time transition of the submission path. A row
    /// in the created state gets the status `STATUS_SENT`, the signature,
    /// the signed payload and the two instants. A row in any other state
    /// has had its transition, or was failed before it: it stays as it is,
    /// so that no status moves backward and the signature, the payload and
    /// `sent_at` are written once.
    pub open spec fn marked_sent(
        self,
        signature: Seq<char>,
        sent_at: Timestamp,
        signed_tx: Seq<char>,
        updated_at: Timestamp,
    ) -> Row {
        if self.status == STATUS_CREATED {
            Row {
                status: STATUS_SENT,
                sent_at: Some(sent_at),
                tx: signed_tx,
                tx_signature: Some(signature),
                updated_at: Some(updated_at),
                ..self
            }
        } else {
            self
        }
    }

    /// This row after a status update: the status is set, and with it the
    /// timestamp that belongs to that status, where it has one.
    pub open spec fn with_status(self, status: u16, datetime: Option<Timestamp>) -> Row {
        match timestamp_of(status) {
            Some(StatusTimestamp::ConfirmedAt) => Row { status, confirmed_at: datetime, ..self },
            Some(StatusTimestamp::FinalizedAt) => Row { status, finalized_at: datetime, ..self },
            None => Row { status, ..self },
        }
    }

    /// This row after the engine's write of `transition` at the instant
    /// `at`: confirmation and finalization record the instant, the other
    /// two have no timestamp of their own.
    pub open spec fn after(self, transition: Transition, at: Timestamp) -> Row {
        self.with_status(transition.target(), transition.stamped(at))
    }

    /// Whether the engine still has to follow this row.
    pub open spec fn is_outstanding(self) -> bool {
        !is_terminal(self.status)
    }
}

/// The timestamp of a record that is written together with a status.
#[derive(Clone, Copy, Debug, PartialEq, Eq, Structural)]
pub enum StatusTimestamp {
    ConfirmedAt,
    FinalizedAt,
}

/// The timestamp that belongs to `status`, where it has one.
pub open spec fn timestamp_of(status: u16) -> Option<StatusTimestamp> {
    if status == STATUS_CONFIRMED {
        Some(StatusTimestamp::ConfirmedAt)
    } else if status == STATUS_FINALIZED {
        Some(StatusTimestamp::FinalizedAt)
    } else {
        None
    }
}

/// Whether a status can be written by a status update: every defined
/// status, from `STATUS_CREATED` to `STATUS_FAILED`.
pub open spec fn updatable_status(status: u16) -> bool {
    status <= STATUS_FAILED
}

/// The rows numbered 1, 2, 3, ... in order, and few enough for `i32`.
pub open spec fn numbered(rows: Seq<Row>) -> bool {
    &&& rows.len() <= i32::MAX
    &&& forall|i: int| 0 <= i < rows.len() ==> (#[trigger] rows[i]).id == i + 1
}

/// The rows after an insert of `new_tx`.
pub open spec fn rows_inserted(rows: Seq<Row>, new_tx: NewRow) -> Seq<Row> {
    rows.push(Row::fresh((rows.len() + 1) as i32, new_tx))
}

/// The rows after `f` has been applied to every row whose identifier is `id`.
pub open spec fn rows_updated(rows: Seq<Row>, id: i32, f: spec_fn(Row) -> Row) -> Seq<Row> {
    rows.map_values(
        |r: Row|
            if r.id == id {
                f(r)
            } else {
                r
            },
    )
}

/// The rows after a status update addressed to `id`.
pub open spec fn rows_with_status(
    rows: Seq<Row>,
    id: i32,
    status: u16,
    datetime: Option<Timestamp>,
) -> Seq<Row> {
    rows_updated(rows, id, |r: Row| r.with_status(status, datetime))
}

/// The rows after the submission path has marked `id` as sent.
pub open spec fn rows_marked_sent(
    rows: Seq<Row>,
    id: i32,
    signature: Seq<char>,
    sent_at: Timestamp,
    signed_tx: Seq<char>,
    updated_at: Timestamp,
) -> Seq<Row> {
    rows_updated(rows, id, |r: Row| r.marked_sent(signature, sent_at, signed_tx, updated_at))
}

/// The rows after the engine's write of `transition` for `id` at the
/// instant `at`.
pub open spec fn rows_after(rows: Seq<Row>, id: i32, transition: Transition, at: Timestamp) -> Seq<
    Row,
> {
    rows_updated(rows, id, |r: Row| r.after(transition, at))
}

/// The rows that are not terminal, in store order.
pub open spec fn outstanding(rows: Seq<Row>) -> Seq<Row> {
    rows.filter(|r: Row| r.is_outstanding())
}

/// Whether `k` is the first row that carries `signature`.
pub open spec fn first_with_signature(rows: Seq<Row>, signature: Seq<char>, k: int) -> bool {
    &&& 0 <= k < rows.len()
    &&& rows[k].tx_signature == Some(signature)
    &&& forall|j: int| 0 <= j < k ==> (#[trigger] rows[j]).tx_signature != Some(signature)
}

/// Whether no row carries `signature`.
pub open spec fn no_row_with_signature(rows: Seq<Row>, signature: Seq<char>) -> bool {
    forall|j: int| 0 <= j < rows.len() ==> (#[trigger] rows[j]).tx_signature != Some(signature)
}

/// The table of transaction records, in memory. Rows are never deleted, and
/// identifiers are assigned in sequence from 1.
pub struct TransactionStore {
    records: Vec<SolanaTransaction>,
}

impl View for TransactionStore {
    type V = Seq<Row>;

    closed spec fn view(&self) -> Seq<Row> {
        rows_of(self.records@)
    }
}

impl TransactionStore {
    #[verifier::type_invariant]
    spec fn numbered_rows(self) -> bool {
        numbered(self@)
    }

    /// A store without rows.
    pub fn new() -> (store: TransactionStore)
        ensures
            store@ == Seq::<Row>::empty(),
    {
        let store = TransactionStore { records: Vec::new() };
        assert(store@ =~= Seq::<Row>::empty());
        store
    }

    /// The number of rows. The rows of every store are numbered in sequence.
    pub fn len(&self) -> (n: usize)
        ensures
            n == self@.len(),
            numbered(self@),
    {
        proof {
            use_type_invariant(self);
        }
        self.records.len()
    }
}

/// The timestamp that a status update writes together with `status`:
/// `confirmed_at` for `STATUS_CONFIRMED`, `finalized_at` for
/// `STATUS_FINALIZED`, none for the other defined statuses.
/// `UnsupportedStatus` exactly when the code is not a defined status.
pub fn status_timestamp(status: u16) -> (result: Result<Option<StatusTimestamp>, StoreError>)
    ensures
        updatable_status(status) ==> result == Ok::<Option<StatusTimestamp>, StoreError>(
            timestamp_of(status),
        ),
        !updatable_status(status) ==> result == Err::<Option<StatusTimestamp>, StoreError>(
            StoreError::UnsupportedStatus,
        ),
{
    if status == STATUS_CONFIRMED {
        Ok(Some(StatusTimestamp::ConfirmedAt))
    } else if status == STATUS_FINALIZED {
        Ok(Some(StatusTimestamp::FinalizedAt))
    } else if status <= STATUS_FAILED {
        Ok(None)
    } else {
        Err(StoreError::UnsupportedStatus)
    }
}

/// Under sequential numbering, an update addressed to `id` touches the row
/// at position `id - 1` and no other; where no row has that identifier it
/// touches none.
pub proof fn lemma_rows_updated(rows: Seq<Row>, id: i32, f: spec_fn(Row) -> Row)
    requires
        numbered(rows),
    ensures
        1 <= id <= rows.len() ==> rows_updated(rows, id, f) == rows.update(
            id - 1,
            f(rows[id - 1]),
        ),
        !(1 <= id <= rows.len()) ==> rows_updated(rows, id, f) == rows,
{
    if 1 <= id <= rows.len() {
        assert(rows_updated(rows, id, f) =~= rows.update(id - 1, f(rows[id - 1])));
    } else {
        assert(rows_updated(rows, id, f) =~= rows);
    }
}

impl SolanaTransaction {
    /// A copy of this record.
    pub fn duplicate(&self) -> (copy: SolanaTransaction)
        ensures
            copy@ == self@,
    {
        let tx_signature = match &self.tx_signature {
            Some(s) => Some(s.clone()),
            None => None,
        };
        SolanaTransaction {
            id: self.id,
            blockhash: self.blockhash.clone(),
            last_valid_block_height: self.last_valid_block_height,
            status: self.status,
            tx: self.tx.clone(),
            created_at: self.created_at,
            updated_at: self.updated_at,
            sent_at: self.sent_at,
            confirmed_at: self.confirmed_at,
            finalized_at: self.finalized_at,
            time_to_send: self.time_to_send,
            time_to_confirmed: self.time_to_confirmed,
            time_to_finalized: self.time_to_finalized,
            priority_fee: self.priority_fee,
            tx_signature,
        }
    }
}

impl TransactionStore {
    /// Puts `row` in the place of the row that has its identifier.
    fn rewrite(&mut self, row: SolanaTransaction)
        requires
            1 <= row.id <= old(self)@.len(),
        ensures
            final(self)@ == old(self)@.update(row.id - 1, row@),
    {
        proof {
            use_type_invariant(&*self);
        }
        let ghost before = self@;
        let ghost after = row@;
        let index = (row.id - 1) as usize;
        let mut records: Vec<SolanaTransaction> = Vec::new();
        assert(rows_of(records@) =~= Seq::<Row>::empty());
        std::mem::swap(&mut self.records, &mut records);
        records.set(index, row);
        assert(rows_of(records@) =~= before.update(index as int, after));
        std::mem::swap(&mut self.records, &mut records);
    }
}

impl SolanaTransaction {
    /// Inserts a record with the fields of `new_tx` and returns the identifier
    /// assigned to it: one more than the number of rows before. Fails with
    /// `Unavailable`, and changes nothing, exactly when the identifiers of
    /// `i32` are used up.
    pub fn create(store: &mut TransactionStore, new_tx: NewSolanaTransaction) -> (result: Result<
        i32,
        StoreError,
    >)
        ensures
            numbered(final(store)@),
            match result {
                Ok(id) => {
                    &&& old(store)@.len() < i32::MAX
                    &&& id == old(store)@.len() + 1
                    &&& final(store)@ == rows_inserted(old(store)@, new_tx@)
                },
                Err(e) => {
                    &&& e == StoreError::Unavailable
                    &&& old(store)@.len() >= i32::MAX
                    &&& final(store)@ == old(store)@
                },
            },
    {
        proof {
            use_type_invariant(&*store);
        }
        let ghost before = store@;
        let count = store.records.len();
        if count >= i32::MAX as usize {
            return Err(StoreError::Unavailable);
        }
        let id = (count + 1) as i32;
        let ghost fresh = Row::fresh(id, new_tx@);
        let record = SolanaTransaction {
            id,
            blockhash: new_tx.blockhash,
            last_valid_block_height: new_tx.last_valid_block_height,
            status: new_tx.status,
            tx: new_tx.tx,
            created_at: new_tx.created_at,
            updated_at: None,
            sent_at: new_tx.sent_at,
            confirmed_at: None,
            finalized_at: None,
            time_to_send: None,
            time_to_confirmed: None,
            time_to_finalized: None,
            priority_fee: None,
            tx_signature: None,
        };
        assert(record@ == fresh);
        let mut records: Vec<SolanaTransaction> = Vec::new();
        assert(rows_of(records@) =~= Seq::<Row>::empty());
        std::mem::swap(&mut store.records, &mut records);
        records.push(record);
        assert(rows_of(records@) =~= before.push(fresh));
        std::mem::swap(&mut store.records, &mut records);
        Ok(id)
    }

    /// Looks a record up by its identifier. `NotFound` exactly when no row
    /// has it, that is when `id` is not among 1, ..., the number of rows.
    pub fn get_by_id(store: &TransactionStore, id: i32) -> (result: Result<
        SolanaTransaction,
        StoreError,
    >)
        ensures
            match result {
                Ok(record) => {
                    &&& 1 <= id <= store@.len()
                    &&& record@ == store@[id - 1]
                    &&& record@.id == id
                },
                Err(e) => {
                    &&& e == StoreError::NotFound
                    &&& !(1 <= id <= store@.len())
                    &&& forall|i: int| 0 <= i < store@.len() ==> (#[trigger] store@[i]).id != id
                },
            },
    {
        proof {
            use_type_invariant(store);
        }
        if id < 1 || id as usize > store.records.len() {
            return Err(StoreError::NotFound);
        }
        let index = (id - 1) as usize;
        Ok(store.records[index].duplicate())
    }

    /// Looks a record up by the signature that the ledger gave it: the first
    /// row in store order that carries `signature`. `NotFound` exactly when
    /// no row carries it.
    pub fn get_by_signature(store: &TransactionStore, signature: String) -> (result: Result<
        SolanaTransaction,
        StoreError,
    >)
        ensures
            match result {
                Ok(record) => exists|k: int|
                    first_with_signature(store@, signature@, k) && record@ == store@[k],
                Err(e) => e == StoreError::NotFound && no_row_with_signature(store@, signature@),
            },
    {
        let mut k: usize = 0;
        while k < store.records.len()
            invariant
                k <= store.records.len(),
                forall|j: int|
                    0 <= j < k ==> (#[trigger] store@[j]).tx_signature != Some(signature@),
            decreases store.records.len() - k,
        {
            let found = match &store.records[k].tx_signature {
                Some(s) => *s == signature,
                None => false,
            };
            if found {
                assert(first_with_signature(store@, signature@, k as int));
                return Ok(store.records[k].duplicate());
            }
            k = k + 1;
        }
        Err(StoreError::NotFound)
    }

    /// The records that are neither finalized nor failed, in store order:
    /// what the engine has to follow. Always succeeds.
    pub fn get_all_not_finalized_or_failed(store: &TransactionStore) -> (result: Result<
        Vec<SolanaTransaction>,
        StoreError,
    >)
        ensures
            result is Ok,
            rows_of(result->Ok_0@) == outstanding(store@),
    {
        let mut found: Vec<SolanaTransaction> = Vec::new();
        let mut k: usize = 0;
        proof {
            reveal(Seq::filter);
            assert(store@.take(0) =~= Seq::<Row>::empty());
            assert(rows_of(found@) =~= Seq::<Row>::empty());
        }
        while k < store.records.len()
            invariant
                k <= store.records.len(),
                rows_of(found@) == outstanding(store@.take(k as int)),
            decreases store.records.len() - k,
        {
            let ghost seen = store@.take(k as int);
            let ghost kept = rows_of(found@);
            proof {
                reveal(Seq::filter);
                assert(store@.take(k + 1) =~= seen.push(store@[k as int]));
                assert(seen.push(store@[k as int]).drop_last() =~= seen);
            }
            if !status_is_terminal(store.records[k].status) {
                let copy = store.records[k].duplicate();
                found.push(copy);
                assert(rows_of(found@) =~= kept.push(store@[k as int]));
            }
            k = k + 1;
        }
        assert(store@.take(k as int) =~= store@);
        Ok(found)
    }

    /// Marks the record `tx_id` as sent, with `updated_at` as the instant of
    /// the update: where the record is in the created state, the status
    /// `STATUS_SENT`, `sent_at`, the signature and the signed payload are
    /// written. Where the record is in any other state, or no row has the
    /// identifier, nothing changes. Always succeeds.
    pub fn mark_sent(
        store: &mut TransactionStore,
        tx_id: i32,
        signature: String,
        sent_at: Timestamp,
        signed_tx: String,
        updated_at: Timestamp,
    ) -> (result: Result<(), StoreError>)
        ensures
            result is Ok,
            numbered(final(store)@),
            final(store)@ == rows_marked_sent(
                old(store)@,
                tx_id,
                signature@,
                sent_at,
                signed_tx@,
                updated_at,
            ),
    {
        proof {
            use_type_invariant(&*store);
            lemma_rows_updated(
                store@,
                tx_id,
                |r: Row| r.marked_sent(signature@, sent_at, signed_tx@, updated_at),
            );
        }
        if tx_id < 1 || tx_id as usize > store.records.len() {
            return Ok(());
        }
        let index = (tx_id - 1) as usize;
        if store.records[index].status != STATUS_CREATED {
            assert(store@ =~= store@.update(index as int, store@[index as int]));
            return Ok(());
        }
        let mut record = store.records[index].duplicate();
        record.status = STATUS_SENT;
        record.sent_at = Some(sent_at);
        record.tx = signed_tx;
        record.tx_signature = Some(signature);
        record.updated_at = Some(updated_at);
        store.rewrite(record);
        proof {
            use_type_invariant(&*store);
        }
        Ok(())
    }

    /// Marks the record `tx_id` as sent, as `mark_sent` does, with the
    /// current instant as the instant of the update.
    pub fn set_status_sent(
        store: &mut TransactionStore,
        tx_id: i32,
        signature: String,
        sent_at: Timestamp,
        signed_tx: String,
    ) -> (result: Result<(), StoreError>)
        ensures
            result is Ok,
            numbered(final(store)@),
            exists|updated_at: Timestamp|
                final(store)@ == #[trigger] rows_marked_sent(
                    old(store)@,
                    tx_id,
                    signature@,
                    sent_at,
                    signed_tx@,
                    updated_at,
                ),
    {
        let now = Timestamp::now();
        SolanaTransaction::mark_sent(store, tx_id, signature, sent_at, signed_tx, now)
    }

    /// Sets the status of the record `id` to any defined status, and with
    /// it the timestamp that belongs to the status: `confirmed_at` for
    /// `STATUS_CONFIRMED`, `finalized_at` for `STATUS_FINALIZED`, none for
    /// the others. Every other field and every other record stay as they
    /// are. The transition itself is not validated: that is the caller's
    /// part. Where no row has the identifier nothing changes. A code that is
    /// not a defined status is refused with `UnsupportedStatus`, and nothing
    /// changes.
    pub fn update_status(
        store: &mut TransactionStore,
        id: i32,
        status: u16,
        datetime: Option<Timestamp>,
    ) -> (result: Result<(), StoreError>)
        ensures
            numbered(final(store)@),
            updatable_status(status) ==> result is Ok && final(store)@ == rows_with_status(
                old(store)@,
                id,
                status,
                datetime,
            ),
            !updatable_status(status) ==> result == Err::<(), StoreError>(
                StoreError::UnsupportedStatus,
            ) && final(store)@ == old(store)@,
    {
        proof {
            use_type_invariant(&*store);
            lemma_rows_updated(store@, id, |r: Row| r.with_status(status, datetime));
        }
        let field = match status_timestamp(status) {
            Ok(field) => field,
            Err(e) => {
                return Err(e);
            },
        };
        if id < 1 || id as usize > store.records.len() {
            return Ok(());
        }
        let index = (id - 1) as usize;
        let mut record = store.records[index].duplicate();
        record.status = status;
        match field {
            Some(StatusTimestamp::ConfirmedAt) => {
                record.confirmed_at = datetime;
            },
            Some(StatusTimestamp::FinalizedAt) => {
                record.finalized_at = datetime;
            },
            None => {},
        }
        store.rewrite(record);
        proof {
            use_type_invariant(&*store);
        }
        Ok(())
    }

    /// Carries out the engine's write of `transition` for the record `id`,
    /// with `at` as the instant of the write. Where no row has the
    /// identifier nothing changes. Always succeeds.
    pub fn apply_transition(
        store: &mut TransactionStore,
        id: i32,
        transition: Transition,
        at: Timestamp,
    ) -> (result: Result<(), StoreError>)
        ensures
            result is Ok,
            numbered(final(store)@),
            final(store)@ == rows_after(old(store)@, id, transition, at),
    {
        let ghost before = store@;
        let result = SolanaTransaction::update_status(
            store,
            id,
            transition.status(),
            transition.stamp(at),
        );
        assert(store@ =~= rows_after(before, id, transition, at));
        result
    }

    /// Records that the ledger has processed the record `id`.
    pub fn set_status_processing(store: &mut TransactionStore, id: i32) -> (result: Result<
        (),
        StoreError,
    >)
        ensures
            result is Ok,
            numbered(final(store)@),
            final(store)@ == rows_with_status(old(store)@, id, STATUS_PROCESSING, None),
    {
        SolanaTransaction::update_status(store, id, STATUS_PROCESSING, None)
    }

    /// Records that the ledger has confirmed the record `id`, with the
    /// current instant as `confirmed_at`.
    pub fn set_status_confirmed(store: &mut TransactionStore, id: i32) -> (result: Result<
        (),
        StoreError,
    >)
        ensures
            result is Ok,
            numbered(final(store)@),
            exists|at: Timestamp|
                final(store)@ == #[trigger] rows_with_status(
                    old(store)@,
                    id,
                    STATUS_CONFIRMED,
                    Some(at),
                ),
    {
        let confirmed_at = Timestamp::now();
        SolanaTransaction::update_status(store, id, STATUS_CONFIRMED, Some(confirmed_at))
    }

    /// Records that the ledger has finalized the record `id`, with the
    /// current instant as `finalized_at`.
    pub fn set_status_finalized(store: &mut TransactionStore, id: i32) -> (result: Result<
        (),
        StoreError,
    >)
        ensures
            result is Ok,
            numbered(final(store)@),
            exists|at: Timestamp|
                final(store)@ == #[trigger] rows_with_status(
                    old(store)@,
                    id,
                    STATUS_FINALIZED,
                    Some(at),
                ),
    {
        let finalized_at = Timestamp::now();
        SolanaTransaction::update_status(store, id, STATUS_FINALIZED, Some(finalized_at))
    }

    /// Records that the validity window of the record `id` has passed.
    pub fn set_status_failed(store: &mut TransactionStore, id: i32) -> (result: Result<
        (),
        StoreError,
    >)
        ensures
            result is Ok,
            numbered(final(store)@),
            final(store)@ == rows_with_status(old(store)@, id, STATUS_FAILED, None),
    {
        SolanaTransaction::update_status(store, id, STATUS_FAILED, None)
    }
}

} // verus!
