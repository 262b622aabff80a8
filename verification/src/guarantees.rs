//! What holds of every record that the engine follows, stated over the
//! engine's transition function and the store's rows, and proved.

use crate::engine::{
    outcome, owed, planned, rest, scan, step, ActionView, EngineState, EventView, Phase, Plan,
};
use crate::ledger::{ConfirmationLevel, LedgerError, StatusReply};
use crate::solana_transactions_repository::{
    numbered, outstanding, rows_after, Row, StoreError,
};
use crate::status::{
    is_terminal, may_follow, Transition, STATUS_CONFIRMED, STATUS_CREATED, STATUS_FAILED,
    STATUS_SENT,
};
use crate::timestamp::Timestamp;
use vstd::prelude::*;

verus! {

/// What one cycle brings to a record: the chain height, the ledger's answer
/// for its signature, and the instant of the write.
pub struct Cycle {
    pub height: u64,
    pub reply: StatusReply,
    pub at: Timestamp,
}

/// The row after one cycle.
pub open spec fn reconciled(row: Row, cycle: Cycle) -> Row {
    match outcome(row, cycle.height, cycle.reply) {
        Some(transition) => row.after(transition, cycle.at),
        None => row,
    }
}

/// One write in the life of a record: a cycle of the engine, or the mark
/// of the submission path.
pub enum Step {
    Cycle(Cycle),
    Mark { signature: Seq<char>, sent_at: Timestamp, signed_tx: Seq<char>, updated_at: Timestamp },
}

/// The row after one step.
pub open spec fn stepped(row: Row, step: Step) -> Row {
    match step {
        Step::Cycle(cycle) => reconciled(row, cycle),
        Step::Mark { signature, sent_at, signed_tx, updated_at } => row.marked_sent(
            signature,
            sent_at,
            signed_tx,
            updated_at,
        ),
    }
}

/// The row after the steps of `steps`, in order.
pub open spec fn history(row: Row, steps: Seq<Step>) -> Row
    decreases steps.len(),
{
    if steps.len() == 0 {
        row
    } else {
        stepped(history(row, steps.drop_last()), steps.last())
    }
}

/// One cycle never moves a status backward: the status after it is the
/// status before, a later one, or the failure. What identifies the record
/// and bounds its validity is left as it was.
pub proof fn lemma_cycle_moves_forward(row: Row, cycle: Cycle)
    ensures
        may_follow(row.status, reconciled(row, cycle).status),
        reconciled(row, cycle).id == row.id,
        reconciled(row, cycle).last_valid_block_height == row.last_valid_block_height,
        reconciled(row, cycle).blockhash == row.blockhash,
        reconciled(row, cycle).tx_signature == row.tx_signature,
        reconciled(row, cycle).created_at == row.created_at,
{
}

/// The mark of the submission path never moves a status backward, and it
/// is applied once: it takes a record from the created state to the sent
/// state, and leaves a record in any other state as it is, with its
/// signature, its payload and its instants. What identifies the record and
/// bounds its validity is left as it was in either case.
pub proof fn lemma_mark_moves_forward(
    row: Row,
    signature: Seq<char>,
    sent_at: Timestamp,
    signed_tx: Seq<char>,
    updated_at: Timestamp,
)
    ensures
        may_follow(row.status, row.marked_sent(signature, sent_at, signed_tx, updated_at).status),
        row.status != STATUS_CREATED ==> row.marked_sent(signature, sent_at, signed_tx, updated_at)
            == row,
        row.status == STATUS_CREATED ==> row.marked_sent(
            signature,
            sent_at,
            signed_tx,
            updated_at,
        ).status == STATUS_SENT,
        row.marked_sent(signature, sent_at, signed_tx, updated_at).id == row.id,
        row.marked_sent(signature, sent_at, signed_tx, updated_at).last_valid_block_height
            == row.last_valid_block_height,
        row.marked_sent(signature, sent_at, signed_tx, updated_at).blockhash == row.blockhash,
        row.marked_sent(signature, sent_at, signed_tx, updated_at).created_at == row.created_at,
{
}

/// Monotonicity: of two statuses observed in the life of one record, the
/// later is at or beyond the earlier one, or it is the failure. The life of
/// a record is any sequence of cycles of the engine and marks of the
/// submission path.
pub proof fn lemma_status_never_regresses(row: Row, steps: Seq<Step>, i: int, j: int)
    requires
        0 <= i <= j <= steps.len(),
    ensures
        may_follow(history(row, steps.take(i)).status, history(row, steps.take(j)).status),
    decreases j,
{
    if i < j {
        let shorter = steps.take(j - 1);
        assert(steps.take(j).drop_last() =~= shorter);
        assert(steps.take(j).last() == steps[j - 1]);
        lemma_status_never_regresses(row, steps, i, j - 1);
        lemma_step_moves_forward(history(row, shorter), steps[j - 1]);
    }
}

/// No step moves a status backward, whichever of the two it is.
pub proof fn lemma_step_moves_forward(row: Row, step: Step)
    ensures
        may_follow(row.status, stepped(row, step).status),
        stepped(row, step).id == row.id,
        stepped(row, step).last_valid_block_height == row.last_valid_block_height,
        stepped(row, step).blockhash == row.blockhash,
        stepped(row, step).created_at == row.created_at,
{
}

/// Written once: once a record has left the created state, no step changes
/// its signature, its payload or `sent_at`, and it never returns to the
/// created state. Once it is confirmed or beyond, no step changes
/// `confirmed_at`; once it is terminal, no step changes `finalized_at`.
pub proof fn lemma_written_once(row: Row, steps: Seq<Step>)
    requires
        STATUS_CREATED < row.status,
    ensures
        STATUS_CREATED < history(row, steps).status,
        history(row, steps).tx_signature == row.tx_signature,
        history(row, steps).tx == row.tx,
        history(row, steps).sent_at == row.sent_at,
        history(row, steps).updated_at == row.updated_at,
        STATUS_CONFIRMED <= row.status ==> STATUS_CONFIRMED <= history(row, steps).status
            && history(row, steps).confirmed_at == row.confirmed_at,
        is_terminal(row.status) ==> history(row, steps).finalized_at == row.finalized_at,
    decreases steps.len(),
{
    if steps.len() > 0 {
        lemma_written_once(row, steps.drop_last());
        if is_terminal(row.status) {
            lemma_terminal_is_final(row, steps.drop_last());
        }
    }
}

/// Idempotence of a settled observation: where the record is at or beyond
/// the status that the reported level implies, and its validity window has
/// not run out, the cycle writes nothing: no timestamp is written a second
/// time and the status stays.
pub proof fn lemma_settled_observation_writes_nothing(
    row: Row,
    height: u64,
    level: ConfirmationLevel,
    at: Timestamp,
)
    requires
        row.status >= level.implied_status(),
        planned(row, height) != Plan::Expire,
    ensures
        owed(row.status, level) is None,
        outcome(row, height, Ok(Some(level))) is None,
        reconciled(row, Cycle { height, reply: Ok(Some(level)), at }) == row,
{
}

/// Idempotence of a repeated observation: a second cycle that sees the
/// height and the answer of the first writes nothing, whatever the first
/// one wrote.
pub proof fn lemma_repeated_observation_writes_nothing(
    row: Row,
    height: u64,
    reply: StatusReply,
    first: Timestamp,
    second: Timestamp,
)
    ensures
        outcome(reconciled(row, Cycle { height, reply, at: first }), height, reply) is None,
        reconciled(
            reconciled(row, Cycle { height, reply, at: first }),
            Cycle { height, reply, at: second },
        ) == reconciled(row, Cycle { height, reply, at: first }),
{
}

/// Expiry precedence: a record that is not terminal and whose validity
/// window has run out fails in the next cycle, whatever the ledger answers
/// for its signature in that cycle.
pub proof fn lemma_expiry_precedes_status(row: Row, cycle: Cycle)
    requires
        !is_terminal(row.status),
        cycle.height >= row.last_valid_block_height,
    ensures
        planned(row, cycle.height) == Plan::Expire,
        outcome(row, cycle.height, cycle.reply) == Some(Transition::Failed),
        reconciled(row, cycle).status == STATUS_FAILED,
{
}

/// Terminal exclusion, for the engine: a terminal record is never written
/// again, so it stays as it is through any number of cycles, and through
/// any mark of the submission path that comes too late.
pub proof fn lemma_terminal_is_final(row: Row, steps: Seq<Step>)
    requires
        is_terminal(row.status),
    ensures
        forall|height: u64, reply: StatusReply| outcome(row, height, reply) is None,
        history(row, steps) == row,
    decreases steps.len(),
{
    if steps.len() > 0 {
        lemma_terminal_is_final(row, steps.drop_last());
    }
}

/// Terminal exclusion, for the store: the outstanding rows hold no terminal
/// row, and none with the identifier of a terminal row of the store.
pub proof fn lemma_outstanding_excludes_terminal(rows: Seq<Row>, i: int)
    requires
        numbered(rows),
        0 <= i < rows.len(),
        is_terminal(rows[i].status),
    ensures
        forall|k: int|
            0 <= k < outstanding(rows).len() ==> !is_terminal(
                (#[trigger] outstanding(rows)[k]).status,
            ),
        forall|k: int|
            0 <= k < outstanding(rows).len() ==> (#[trigger] outstanding(rows)[k]).id
                != rows[i].id,
        !outstanding(rows).contains(rows[i]),
{
    let keep = |r: Row| r.is_outstanding();
    let kept = rows.filter(keep);
    assert forall|k: int| 0 <= k < kept.len() implies !is_terminal((#[trigger] kept[k]).status)
        && kept[k].id != rows[i].id by {
        rows.lemma_filter_pred(keep, k);
        assert(kept.contains(kept[k]));
        rows.lemma_filter_contains_rev(keep, kept[k]);
        let m = choose|m: int| 0 <= m < rows.len() && rows[m] == kept[k];
        assert(rows[m].id == m + 1);
    }
}

/// Every state that the transition function reaches from a well-formed
/// state is well-formed.
pub proof fn lemma_step_keeps_wf(state: EngineState, event: EventView)
    requires
        state.wf(),
    ensures
        step(state, event).0.wf(),
{
    match state.phase {
        Phase::AwaitingHeight => {
            if let EventView::ChainHeight(Ok(height)) = event {
                lemma_scan_lands(state.records, height, 0);
            }
        },
        Phase::AwaitingStatus => {
            lemma_scan_lands(state.records, state.height, state.cursor + 1);
        },
        Phase::AwaitingWrite => {
            lemma_scan_lands(state.records, state.height, state.cursor + 1);
        },
        _ => {},
    }
}

/// Where the scan lands: on the first record from `from` on whose plan is
/// not `Skip`, with the action of that plan, the records and the height
/// kept; or, where there is no such record, at the end of the cycle.
pub proof fn lemma_scan_lands(records: Seq<Row>, height: u64, from: int)
    requires
        0 <= from,
    ensures
        scan(records, height, from).0.wf(),
        match scan(records, height, from).1 {
            ActionView::Sleep { .. } => {
                &&& scan(records, height, from) == rest()
                &&& forall|k: int|
                    from <= k < records.len() ==> planned(#[trigger] records[k], height)
                        == Plan::Skip
            },
            ActionView::Write { id, transition } => {
                let landed = scan(records, height, from).0;
                &&& landed == EngineState {
                    phase: Phase::AwaitingWrite,
                    records,
                    height,
                    cursor: landed.cursor,
                }
                &&& from <= landed.cursor < records.len()
                &&& forall|k: int|
                    from <= k < landed.cursor ==> planned(#[trigger] records[k], height)
                        == Plan::Skip
                &&& planned(records[landed.cursor], height) == Plan::Expire
                &&& id == records[landed.cursor].id
                &&& transition == Transition::Failed
            },
            ActionView::QueryStatus { id, signature } => {
                let landed = scan(records, height, from).0;
                &&& landed == EngineState {
                    phase: Phase::AwaitingStatus,
                    records,
                    height,
                    cursor: landed.cursor,
                }
                &&& from <= landed.cursor < records.len()
                &&& forall|k: int|
                    from <= k < landed.cursor ==> planned(#[trigger] records[k], height)
                        == Plan::Skip
                &&& planned(records[landed.cursor], height) == Plan::Query
                &&& id == records[landed.cursor].id
                &&& Some(signature) == records[landed.cursor].tx_signature
            },
            _ => false,
        },
    decreases records.len() - from,
{
    if from < records.len() {
        if planned(records[from], height) == Plan::Skip {
            lemma_scan_lands(records, height, from + 1);
        }
    }
}

/// Every write that the engine asks for is the write that the cycle owes to
/// the record under the cursor, and that record is not terminal: the
/// failure where its validity window has run out, else the transition that
/// the ledger's answer calls for.
pub proof fn lemma_writes_follow_outcome(state: EngineState, event: EventView)
    requires
        state.wf(),
    ensures
        match step(state, event).1 {
            ActionView::Write { id, transition } => {
                let next = step(state, event).0;
                let row = next.records[next.cursor];
                &&& next.phase == Phase::AwaitingWrite
                &&& 0 <= next.cursor < next.records.len()
                &&& id == row.id
                &&& !is_terminal(row.status)
                &&& exists|reply: StatusReply|
                    Some(transition) == #[trigger] outcome(row, next.height, reply)
                &&& state.phase == Phase::AwaitingStatus && next.cursor == state.cursor ==> {
                    &&& event matches EventView::Status(reply)
                    &&& Some(transition) == outcome(row, next.height, reply)
                }
            },
            _ => true,
        },
{
    match state.phase {
        Phase::AwaitingHeight => {
            if let EventView::ChainHeight(Ok(height)) = event {
                lemma_scan_lands(state.records, height, 0);
            }
        },
        Phase::AwaitingStatus => {
            lemma_scan_lands(state.records, state.height, state.cursor + 1);
        },
        Phase::AwaitingWrite => {
            lemma_scan_lands(state.records, state.height, state.cursor + 1);
        },
        _ => {},
    }
    if let ActionView::Write { id, transition } = step(state, event).1 {
        let next = step(state, event).0;
        let row = next.records[next.cursor];
        if state.phase == Phase::AwaitingStatus && next.cursor == state.cursor {
            if let EventView::Status(reply) = event {
                assert(Some(transition) == outcome(row, next.height, reply));
            }
        } else {
            let any: StatusReply = Ok(None);
            assert(Some(transition) == outcome(row, next.height, any));
        }
    }
}

/// Isolation of failures: a status query that fails leaves its record as it
/// is and does not end the cycle. The engine goes on as it does when the
/// ledger has not seen the signature: with the next record that has
/// anything to be done, which it fails or asks the ledger about as that
/// record's own plan says.
pub proof fn lemma_failed_query_does_not_stop_the_cycle(
    state: EngineState,
    error: LedgerError,
    next: int,
)
    requires
        state.wf(),
        state.phase == Phase::AwaitingStatus,
        state.cursor < next < state.records.len(),
        planned(state.records[next], state.height) != Plan::Skip,
        forall|k: int|
            state.cursor < k < next ==> planned(#[trigger] state.records[k], state.height)
                == Plan::Skip,
    ensures
        step(state, EventView::Status(Err(error))) == step(state, EventView::Status(Ok(None))),
        step(state, EventView::Status(Err(error))).0 == (EngineState {
            phase: if planned(state.records[next], state.height) == Plan::Expire {
                Phase::AwaitingWrite
            } else {
                Phase::AwaitingStatus
            },
            cursor: next,
            ..state
        }),
        step(state, EventView::Status(Err(error))).1 == (if planned(
            state.records[next],
            state.height,
        ) == Plan::Expire {
            ActionView::Write { id: state.records[next].id, transition: Transition::Failed }
        } else {
            ActionView::QueryStatus {
                id: state.records[next].id,
                signature: state.records[next].tx_signature->Some_0,
            }
        }),
{
    lemma_scan_lands(state.records, state.height, state.cursor + 1);
}

/// The writes that a cycle owes to the records from position `from` on, in
/// order: for each record the write that its own plan and the ledger's
/// answer for it call for, and for no record more than one. `replies`
/// holds the answers by the position of the record.
pub open spec fn owed_writes(
    records: Seq<Row>,
    height: u64,
    replies: Seq<StatusReply>,
    from: int,
) -> Seq<(i32, Transition)>
    decreases records.len() - from,
{
    if from < 0 || from >= records.len() {
        Seq::empty()
    } else {
        let later = owed_writes(records, height, replies, from + 1);
        match outcome(records[from], height, replies[from]) {
            Some(transition) => seq![(records[from].id, transition)] + later,
            None => later,
        }
    }
}

/// The writes that the engine asks for in at most `steps` further steps,
/// starting with `action` in `state`, when every status query is answered
/// from `replies` by the position of the record and every write is
/// reported back.
pub open spec fn requested_writes(
    state: EngineState,
    action: ActionView,
    replies: Seq<StatusReply>,
    steps: nat,
) -> Seq<(i32, Transition)>
    decreases steps,
{
    if steps == 0 {
        Seq::empty()
    } else {
        match action {
            ActionView::QueryStatus { .. } => {
                let next = step(state, EventView::Status(replies[state.cursor]));
                requested_writes(next.0, next.1, replies, (steps - 1) as nat)
            },
            ActionView::Write { id, transition } => {
                let next = step(state, EventView::Written(Ok(())));
                seq![(id, transition)] + requested_writes(
                    next.0,
                    next.1,
                    replies,
                    (steps - 1) as nat,
                )
            },
            _ => Seq::empty(),
        }
    }
}

/// The engine does not look at the result of a write: it goes on in the
/// same way whether the store reports success or failure.
pub proof fn lemma_write_result_is_ignored(state: EngineState, result: Result<(), StoreError>)
    ensures
        step(state, EventView::Written(result)) == step(state, EventView::Written(Ok(()))),
{
}

/// The engine carries out the cycle record by record: from any position
/// on, the writes that it asks for are exactly the writes owed to the
/// records from there on, in their order. A failed query for one record
/// costs that record its write in this cycle and changes nothing for any
/// other.
pub proof fn lemma_engine_requests_owed_writes(
    records: Seq<Row>,
    height: u64,
    replies: Seq<StatusReply>,
    from: int,
    steps: nat,
)
    requires
        0 <= from,
        replies.len() == records.len(),
        steps >= 2 * (records.len() - from),
    ensures
        requested_writes(
            scan(records, height, from).0,
            scan(records, height, from).1,
            replies,
            steps,
        ) == owed_writes(records, height, replies, from),
    decreases records.len() - from,
{
    let landed = scan(records, height, from);
    lemma_scan_lands(records, height, from);
    if from < records.len() {
        lemma_skipped_owe_nothing(records, height, replies, from, if landed.1 is Sleep {
            records.len() as int
        } else {
            landed.0.cursor
        });
    }
    match landed.1 {
        ActionView::Write { id, transition } => {
            let at = landed.0.cursor;
            lemma_engine_requests_owed_writes(
                records,
                height,
                replies,
                at + 1,
                (steps - 1) as nat,
            );
        },
        ActionView::QueryStatus { id, signature } => {
            let at = landed.0.cursor;
            let answered = step(landed.0, EventView::Status(replies[at]));
            if outcome(records[at], height, replies[at]) is Some {
                lemma_engine_requests_owed_writes(
                    records,
                    height,
                    replies,
                    at + 1,
                    (steps - 2) as nat,
                );
                assert(answered.1 is Write);
                assert(requested_writes(answered.0, answered.1, replies, (steps - 1) as nat)
                    == seq![(records[at].id, outcome(records[at], height, replies[at])->Some_0)]
                    + requested_writes(
                    scan(records, height, at + 1).0,
                    scan(records, height, at + 1).1,
                    replies,
                    (steps - 2) as nat,
                ));
            } else {
                lemma_engine_requests_owed_writes(
                    records,
                    height,
                    replies,
                    at + 1,
                    (steps - 1) as nat,
                );
            }
        },
        _ => {},
    }
}

/// Records whose plan is `Skip` owe no write, whatever the ledger answers.
proof fn lemma_skipped_owe_nothing(
    records: Seq<Row>,
    height: u64,
    replies: Seq<StatusReply>,
    from: int,
    to: int,
)
    requires
        0 <= from <= to <= records.len(),
        forall|k: int| from <= k < to ==> planned(#[trigger] records[k], height) == Plan::Skip,
    ensures
        owed_writes(records, height, replies, from) == owed_writes(records, height, replies, to),
    decreases to - from,
{
    if from < to {
        lemma_skipped_owe_nothing(records, height, replies, from + 1, to);
    }
}

/// One whole cycle: once the records are loaded and the height is known,
/// the engine asks for exactly the writes owed to the records, in their
/// order, and for nothing else.
pub proof fn lemma_cycle_requests_owed_writes(
    state: EngineState,
    height: u64,
    replies: Seq<StatusReply>,
)
    requires
        state.wf(),
        state.phase == Phase::AwaitingHeight,
        replies.len() == state.records.len(),
    ensures
        ({
            let started = step(state, EventView::ChainHeight(Ok(height)));
            requested_writes(started.0, started.1, replies, 2 * state.records.len())
                == owed_writes(state.records, height, replies, 0)
        }),
{
    lemma_engine_requests_owed_writes(state.records, height, replies, 0, 2 * state.records.len());
}

/// The ledger's answers for `records`, by position, where `reply` gives the
/// answer for a record by its identifier.
pub open spec fn answers(records: Seq<Row>, reply: spec_fn(i32) -> StatusReply) -> Seq<
    StatusReply,
> {
    records.map_values(|r: Row| reply(r.id))
}

/// The rows after the writes of `writes` have been carried out in order,
/// the write for a record `id` at the instant `at(id)`.
pub open spec fn rows_written(
    rows: Seq<Row>,
    writes: Seq<(i32, Transition)>,
    at: spec_fn(i32) -> Timestamp,
) -> Seq<Row>
    decreases writes.len(),
{
    if writes.len() == 0 {
        rows
    } else {
        rows_written(
            rows_after(rows, writes[0].0, writes[0].1, at(writes[0].0)),
            writes.drop_first(),
            at,
        )
    }
}

/// The rows after one cycle that reconciles every row with the height and
/// with the ledger's answer for it.
pub open spec fn cycle_rows(
    rows: Seq<Row>,
    height: u64,
    reply: spec_fn(i32) -> StatusReply,
    at: spec_fn(i32) -> Timestamp,
) -> Seq<Row> {
    rows.map_values(|r: Row| reconciled(r, Cycle { height, reply: reply(r.id), at: at(r.id) }))
}

proof fn lemma_rows_written_in_two_parts(
    rows: Seq<Row>,
    first: Seq<(i32, Transition)>,
    second: Seq<(i32, Transition)>,
    at: spec_fn(i32) -> Timestamp,
)
    ensures
        rows_written(rows, first + second, at) == rows_written(
            rows_written(rows, first, at),
            second,
            at,
        ),
    decreases first.len(),
{
    if first.len() == 0 {
        assert(first + second =~= second);
    } else {
        assert((first + second).drop_first() =~= first.drop_first() + second);
        lemma_rows_written_in_two_parts(
            rows_after(rows, first[0].0, first[0].1, at(first[0].0)),
            first.drop_first(),
            second,
            at,
        );
    }
}

proof fn lemma_rows_written_beside(
    rows: Seq<Row>,
    last: Row,
    writes: Seq<(i32, Transition)>,
    at: spec_fn(i32) -> Timestamp,
)
    requires
        forall|k: int| 0 <= k < writes.len() ==> (#[trigger] writes[k]).0 != last.id,
    ensures
        rows_written(rows.push(last), writes, at) == rows_written(rows, writes, at).push(last),
    decreases writes.len(),
{
    if writes.len() > 0 {
        let id = writes[0].0;
        let transition = writes[0].1;
        assert(rows_after(rows.push(last), id, transition, at(id)) =~= rows_after(
            rows,
            id,
            transition,
            at(id),
        ).push(last));
        assert forall|k: int| 0 <= k < writes.drop_first().len() implies (
        #[trigger] writes.drop_first()[k]).0 != last.id by {
            assert(writes.drop_first()[k] == writes[k + 1]);
        }
        lemma_rows_written_beside(
            rows_after(rows, id, transition, at(id)),
            last,
            writes.drop_first(),
            at,
        );
    }
}

proof fn lemma_owed_writes_of_one_more(
    records: Seq<Row>,
    last: Row,
    height: u64,
    reply: spec_fn(i32) -> StatusReply,
    from: int,
)
    requires
        0 <= from <= records.len(),
    ensures
        owed_writes(records.push(last), height, answers(records.push(last), reply), from)
            == owed_writes(records, height, answers(records, reply), from) + (match outcome(
            last,
            height,
            reply(last.id),
        ) {
            Some(transition) => seq![(last.id, transition)],
            None => Seq::empty(),
        }),
    decreases records.len() - from,
{
    let more = records.push(last);
    let one = match outcome(last, height, reply(last.id)) {
        Some(transition) => seq![(last.id, transition)],
        None => Seq::empty(),
    };
    if from < records.len() {
        lemma_owed_writes_of_one_more(records, last, height, reply, from + 1);
        let later = owed_writes(records, height, answers(records, reply), from + 1);
        match outcome(records[from], height, reply(records[from].id)) {
            Some(transition) => {
                assert((seq![(records[from].id, transition)] + later) + one =~= seq![
                    (records[from].id, transition),
                ] + (later + one));
            },
            None => {},
        }
    } else {
        assert(owed_writes(more, height, answers(more, reply), from + 1) =~= Seq::<
            (i32, Transition),
        >::empty());
        assert(owed_writes(records, height, answers(records, reply), from) + one =~= one);
        assert(one + Seq::<(i32, Transition)>::empty() =~= one);
    }
}

proof fn lemma_owed_writes_name_their_records(
    records: Seq<Row>,
    height: u64,
    replies: Seq<StatusReply>,
    from: int,
    k: int,
)
    requires
        0 <= from,
        0 <= k < owed_writes(records, height, replies, from).len(),
    ensures
        exists|j: int|
            from <= j < records.len() && (#[trigger] records[j]).id == owed_writes(
                records,
                height,
                replies,
                from,
            )[k].0,
    decreases records.len() - from,
{
    if from < records.len() {
        let later = owed_writes(records, height, replies, from + 1);
        match outcome(records[from], height, replies[from]) {
            Some(transition) => {
                if k == 0 {
                    assert(records[from].id == owed_writes(records, height, replies, from)[k].0);
                } else {
                    lemma_owed_writes_name_their_records(records, height, replies, from + 1, k - 1);
                    let j = choose|j: int|
                        from + 1 <= j < records.len() && (#[trigger] records[j]).id == later[k
                            - 1].0;
                    assert(records[j].id == owed_writes(records, height, replies, from)[k].0);
                }
            },
            None => {
                lemma_owed_writes_name_their_records(records, height, replies, from + 1, k);
                let j = choose|j: int|
                    from + 1 <= j < records.len() && (#[trigger] records[j]).id == later[k].0;
                assert(records[j].id == owed_writes(records, height, replies, from)[k].0);
            },
        }
    }
}

/// One cycle, for the whole store: where the engine's records are the
/// outstanding rows and every write that it owes is carried out, every row
/// of the store is reconciled with the height and with the ledger's answer
/// for it. A terminal row is reconciled by staying as it is.
pub proof fn lemma_cycle_reconciles_every_row(
    rows: Seq<Row>,
    height: u64,
    reply: spec_fn(i32) -> StatusReply,
    at: spec_fn(i32) -> Timestamp,
)
    requires
        numbered(rows),
    ensures
        rows_written(
            rows,
            owed_writes(outstanding(rows), height, answers(outstanding(rows), reply), 0),
            at,
        ) == cycle_rows(rows, height, reply, at),
    decreases rows.len(),
{
    reveal(Seq::filter);
    if rows.len() == 0 {
        assert(outstanding(rows) =~= Seq::<Row>::empty());
        assert(cycle_rows(rows, height, reply, at) =~= rows);
    } else {
        let before = rows.drop_last();
        let last = rows.last();
        assert(rows =~= before.push(last));
        lemma_cycle_reconciles_every_row(before, height, reply, at);
        let records = outstanding(before);
        let writes = owed_writes(records, height, answers(records, reply), 0);
        let one = match outcome(last, height, reply(last.id)) {
            Some(transition) => seq![(last.id, transition)],
            None => Seq::empty(),
        };
        if last.is_outstanding() {
            assert(outstanding(rows) == records.push(last));
            lemma_owed_writes_of_one_more(records, last, height, reply, 0);
        } else {
            assert(outstanding(rows) == records);
            assert(writes + one =~= writes);
        }
        assert(owed_writes(outstanding(rows), height, answers(outstanding(rows), reply), 0)
            == writes + one);
        assert forall|k: int| 0 <= k < writes.len() implies (#[trigger] writes[k]).0
            != last.id by {
            lemma_owed_writes_name_their_records(
                records,
                height,
                answers(records, reply),
                0,
                k,
            );
            let j = choose|j: int|
                0 <= j < records.len() && (#[trigger] records[j]).id == writes[k].0;
            assert(records.contains(records[j]));
            before.lemma_filter_contains_rev(|r: Row| r.is_outstanding(), records[j]);
            let m = choose|m: int| 0 <= m < before.len() && before[m] == records[j];
            assert(before[m] == rows[m]);
        }
        lemma_rows_written_in_two_parts(rows, writes, one, at);
        lemma_rows_written_beside(before, last, writes, at);
        let settled = cycle_rows(before, height, reply, at);
        assert(rows_written(rows, writes, at) == settled.push(last));
        assert forall|i: int| 0 <= i < settled.len() implies (#[trigger] settled[i]).id
            != last.id by {
            assert(before[i] == rows[i]);
            lemma_cycle_moves_forward(
                before[i],
                Cycle { height, reply: reply(before[i].id), at: at(before[i].id) },
            );
        }
        match outcome(last, height, reply(last.id)) {
            Some(transition) => {
                let written = rows_after(settled.push(last), last.id, transition, at(last.id));
                assert(one.drop_first() =~= Seq::<(i32, Transition)>::empty());
                assert(one[0] == (last.id, transition));
                assert(rows_written(written, Seq::<(i32, Transition)>::empty(), at) == written);
                assert(rows_written(settled.push(last), one, at) == rows_after(
                    settled.push(last),
                    last.id,
                    transition,
                    at(last.id),
                ));
                assert(rows_after(settled.push(last), last.id, transition, at(last.id))
                    =~= cycle_rows(rows, height, reply, at));
            },
            None => {
                assert(settled.push(last) =~= cycle_rows(rows, height, reply, at));
            },
        }
    }
}

/// What one cycle does to each row of the store: the numbering stays, no
/// status moves backward, a terminal row stays as it is, and a row that is
/// not terminal and whose validity window has run out fails, whatever the
/// ledger answers for it.
pub proof fn lemma_cycle_row_by_row(
    rows: Seq<Row>,
    height: u64,
    reply: spec_fn(i32) -> StatusReply,
    at: spec_fn(i32) -> Timestamp,
    i: int,
)
    requires
        numbered(rows),
        0 <= i < rows.len(),
    ensures
        numbered(cycle_rows(rows, height, reply, at)),
        cycle_rows(rows, height, reply, at)[i] == reconciled(
            rows[i],
            Cycle { height, reply: reply(rows[i].id), at: at(rows[i].id) },
        ),
        may_follow(rows[i].status, cycle_rows(rows, height, reply, at)[i].status),
        is_terminal(rows[i].status) ==> cycle_rows(rows, height, reply, at)[i] == rows[i],
        !is_terminal(rows[i].status) && height >= rows[i].last_valid_block_height ==> cycle_rows(
            rows,
            height,
            reply,
            at,
        )[i].status == STATUS_FAILED,
{
    let after = cycle_rows(rows, height, reply, at);
    assert forall|k: int| 0 <= k < after.len() implies (#[trigger] after[k]).id == k + 1 by {
        lemma_cycle_moves_forward(
            rows[k],
            Cycle { height, reply: reply(rows[k].id), at: at(rows[k].id) },
        );
    }
}

} // verus!
