//! The reconciliation engine.
//!
//! Once per cycle the engine loads the outstanding records, fetches the
//! chain height, and for each record either writes the failure (the height
//! has reached the end of its validity window), or asks the ledger for the
//! status of its signature and writes the transition that the answer calls
//! for. The engine performs none of this itself: `Engine::step` takes the
//! result of the last action and returns the next action, and the caller
//! carries it out.

use crate::ledger::{ConfirmationLevel, LedgerError, StatusReply};
use crate::solana_transactions_repository::{rows_of, Row, SolanaTransaction, StoreError};
use crate::status::{is_terminal, status_is_terminal, Transition};
use vstd::prelude::*;

verus! {

/// The pause between two cycles, in milliseconds.
pub const POLL_INTERVAL_MILLIS: u64 = 200;

/// What a cycle does with one record before any answer of the ledger.
#[derive(Clone, Copy, Debug, PartialEq, Eq, Structural)]
pub enum Plan {
    /// Nothing: the record is terminal, or it has no signature to ask for.
    Skip,
    /// Write the failure: the validity window has passed.
    Expire,
    /// Ask the ledger for the status of the signature.
    Query,
}

/// The plan for `row` at chain height `height`. Expiry comes first: a
/// record that is not terminal fails once the height has reached its last
/// valid block height, whatever its status and whether or not it was sent.
pub open spec fn planned(row: Row, height: u64) -> Plan {
    if is_terminal(row.status) {
        Plan::Skip
    } else if height >= row.last_valid_block_height {
        Plan::Expire
    } else if row.tx_signature is Some {
        Plan::Query
    } else {
        Plan::Skip
    }
}

/// The transition that a record at `status` owes to a report of `level`:
/// the implied status where the record is below it, none where the record
/// is at or beyond it.
pub open spec fn owed(status: u16, level: ConfirmationLevel) -> Option<Transition> {
    if status < level.implied_status() {
        Some(
            match level {
                ConfirmationLevel::Processed => Transition::Processing,
                ConfirmationLevel::Confirmed => Transition::Confirmed,
                ConfirmationLevel::Finalized => Transition::Finalized,
            },
        )
    } else {
        None
    }
}

/// The write, if any, that one cycle makes for `row` at chain height
/// `height` when the ledger answers `reply` for its signature.
pub open spec fn outcome(row: Row, height: u64, reply: StatusReply) -> Option<Transition> {
    match planned(row, height) {
        Plan::Skip => None,
        Plan::Expire => Some(Transition::Failed),
        Plan::Query => match reply {
            Ok(Some(level)) => owed(row.status, level),
            _ => None,
        },
    }
}

/// The plan for `record` at chain height `height`.
pub fn plan(record: &SolanaTransaction, height: u64) -> (p: Plan)
    ensures
        p == planned(record@, height),
{
    if status_is_terminal(record.status) {
        Plan::Skip
    } else if height >= record.last_valid_block_height {
        Plan::Expire
    } else if record.tx_signature.is_some() {
        Plan::Query
    } else {
        Plan::Skip
    }
}

/// The transition that a record at `status` owes to a report of `level`.
pub fn advance(status: u16, level: ConfirmationLevel) -> (t: Option<Transition>)
    ensures
        t == owed(status, level),
{
    if status < level.status() {
        Some(
            match level {
                ConfirmationLevel::Processed => Transition::Processing,
                ConfirmationLevel::Confirmed => Transition::Confirmed,
                ConfirmationLevel::Finalized => Transition::Finalized,
            },
        )
    } else {
        None
    }
}

/// The write, if any, that one cycle makes for `record` at chain height
/// `height` when the ledger answers `reply` for its signature.
pub fn decide(record: &SolanaTransaction, height: u64, reply: StatusReply) -> (t: Option<
    Transition,
>)
    ensures
        t == outcome(record@, height, reply),
{
    match plan(record, height) {
        Plan::Skip => None,
        Plan::Expire => Some(Transition::Failed),
        Plan::Query => match reply {
            Ok(Some(level)) => advance(record.status, level),
            _ => None,
        },
    }
}

/// What the engine asks its caller to do next.
#[derive(Debug, PartialEq, Eq)]
pub enum Action {
    /// Read the outstanding records from the store; answer with
    /// `Event::Records`.
    LoadOutstanding,
    /// Fetch the current chain height; answer with `Event::ChainHeight`.
    FetchChainHeight,
    /// Ask the ledger for the status of `signature`, the signature of the
    /// record `id`; answer with `Event::Status`.
    QueryStatus { id: i32, signature: String },
    /// Write `transition` for the record `id`; answer with `Event::Written`.
    Write { id: i32, transition: Transition },
    /// The cycle is over: wait `millis` milliseconds; answer with
    /// `Event::Tick`.
    Sleep { millis: u64 },
}

/// The mathematical value of an `Action`.
pub enum ActionView {
    LoadOutstanding,
    FetchChainHeight,
    QueryStatus { id: i32, signature: Seq<char> },
    Write { id: i32, transition: Transition },
    Sleep { millis: u64 },
}

impl View for Action {
    type V = ActionView;

    open spec fn view(&self) -> ActionView {
        match *self {
            Action::LoadOutstanding => ActionView::LoadOutstanding,
            Action::FetchChainHeight => ActionView::FetchChainHeight,
            Action::QueryStatus { id, signature } => ActionView::QueryStatus {
                id,
                signature: signature@,
            },
            Action::Write { id, transition } => ActionView::Write { id, transition },
            Action::Sleep { millis } => ActionView::Sleep { millis },
        }
    }
}

/// What the caller reports back to the engine.
#[derive(Debug)]
pub enum Event {
    /// The engine was just started, or the pause has elapsed.
    Tick,
    /// The store's answer to `Action::LoadOutstanding`.
    Records(Result<Vec<SolanaTransaction>, StoreError>),
    /// The ledger's answer to `Action::FetchChainHeight`.
    ChainHeight(Result<u64, LedgerError>),
    /// The ledger's answer to `Action::QueryStatus`.
    Status(StatusReply),
    /// The store's answer to `Action::Write`.
    Written(Result<(), StoreError>),
}

/// The mathematical value of an `Event`.
pub enum EventView {
    Tick,
    Records(Result<Seq<Row>, StoreError>),
    ChainHeight(Result<u64, LedgerError>),
    Status(StatusReply),
    Written(Result<(), StoreError>),
}

impl View for Event {
    type V = EventView;

    open spec fn view(&self) -> EventView {
        match *self {
            Event::Tick => EventView::Tick,
            Event::Records(Ok(records)) => EventView::Records(Ok(rows_of(records@))),
            Event::Records(Err(e)) => EventView::Records(Err(e)),
            Event::ChainHeight(h) => EventView::ChainHeight(h),
            Event::Status(r) => EventView::Status(r),
            Event::Written(w) => EventView::Written(w),
        }
    }
}

/// Where in its cycle the engine stands, by the answer it waits for.
#[derive(Clone, Copy, Debug, PartialEq, Eq, Structural)]
pub enum Phase {
    /// Between cycles: waits for `Event::Tick`.
    Idle,
    /// Waits for `Event::Records`.
    Loading,
    /// Waits for `Event::ChainHeight`.
    AwaitingHeight,
    /// Waits for `Event::Status` for the record under the cursor.
    AwaitingStatus,
    /// Waits for `Event::Written` for the record under the cursor.
    AwaitingWrite,
}

/// The mathematical value of an `Engine`.
pub struct EngineState {
    pub phase: Phase,
    /// The records of the running cycle, as loaded at its start.
    pub records: Seq<Row>,
    /// The chain height of the running cycle.
    pub height: u64,
    /// The position in `records` of the record being handled.
    pub cursor: int,
}

impl EngineState {
    /// The state between two cycles.
    pub open spec fn idle() -> EngineState {
        EngineState { phase: Phase::Idle, records: Seq::empty(), height: 0, cursor: 0 }
    }

    /// The states that an engine can be in.
    pub open spec fn wf(self) -> bool {
        match self.phase {
            Phase::Idle => self == EngineState::idle(),
            Phase::Loading => self == EngineState { phase: Phase::Loading, ..EngineState::idle() },
            Phase::AwaitingHeight => {
                &&& self.records.len() > 0
                &&& self.height == 0
                &&& self.cursor == 0
            },
            Phase::AwaitingStatus => {
                &&& 0 <= self.cursor < self.records.len()
                &&& planned(self.records[self.cursor], self.height) == Plan::Query
            },
            Phase::AwaitingWrite => {
                &&& 0 <= self.cursor < self.records.len()
                &&& planned(self.records[self.cursor], self.height) != Plan::Skip
            },
        }
    }
}

/// The end of a cycle: back to idle, and the caller sleeps.
pub open spec fn rest() -> (EngineState, ActionView) {
    (EngineState::idle(), ActionView::Sleep { millis: POLL_INTERVAL_MILLIS })
}

/// The engine's move once the records before `from` are dealt with: it
/// turns to the first record from `from` on whose plan is not `Skip`, and
/// ends the cycle where there is none.
pub open spec fn scan(records: Seq<Row>, height: u64, from: int) -> (EngineState, ActionView)
    decreases records.len() - from,
{
    if from < 0 || from >= records.len() {
        rest()
    } else {
        match planned(records[from], height) {
            Plan::Skip => scan(records, height, from + 1),
            Plan::Expire => (
                EngineState { phase: Phase::AwaitingWrite, records, height, cursor: from },
                ActionView::Write { id: records[from].id, transition: Transition::Failed },
            ),
            Plan::Query => (
                EngineState { phase: Phase::AwaitingStatus, records, height, cursor: from },
                ActionView::QueryStatus {
                    id: records[from].id,
                    signature: records[from].tx_signature->Some_0,
                },
            ),
        }
    }
}

/// The engine's transition function: the state after `event` and the
/// action that the caller is to carry out next. An event that the phase
/// does not wait for, and every failure to load the records or to fetch
/// the height, ends the cycle. A failed status query and a failed write
/// leave their record as it is and the engine goes on with the next.
pub open spec fn step(state: EngineState, event: EventView) -> (EngineState, ActionView) {
    match state.phase {
        Phase::Idle => match event {
            EventView::Tick => (
                EngineState { phase: Phase::Loading, ..EngineState::idle() },
                ActionView::LoadOutstanding,
            ),
            _ => rest(),
        },
        Phase::Loading => match event {
            EventView::Records(Ok(records)) => if records.len() == 0 {
                rest()
            } else {
                (
                    EngineState { phase: Phase::AwaitingHeight, records, height: 0, cursor: 0 },
                    ActionView::FetchChainHeight,
                )
            },
            _ => rest(),
        },
        Phase::AwaitingHeight => match event {
            EventView::ChainHeight(Ok(height)) => scan(state.records, height, 0),
            _ => rest(),
        },
        Phase::AwaitingStatus => match event {
            EventView::Status(Ok(Some(level))) => match owed(
                state.records[state.cursor].status,
                level,
            ) {
                Some(transition) => (
                    EngineState { phase: Phase::AwaitingWrite, ..state },
                    ActionView::Write { id: state.records[state.cursor].id, transition },
                ),
                None => scan(state.records, state.height, state.cursor + 1),
            },
            EventView::Status(_) => scan(state.records, state.height, state.cursor + 1),
            _ => rest(),
        },
        Phase::AwaitingWrite => match event {
            EventView::Written(_) => scan(state.records, state.height, state.cursor + 1),
            _ => rest(),
        },
    }
}

/// The reconciliation engine: the state of the polling cycle.
pub struct Engine {
    phase: Phase,
    records: Vec<SolanaTransaction>,
    height: u64,
    cursor: usize,
}

impl View for Engine {
    type V = EngineState;

    closed spec fn view(&self) -> EngineState {
        EngineState {
            phase: self.phase,
            records: rows_of(self.records@),
            height: self.height,
            cursor: self.cursor as int,
        }
    }
}

impl Engine {
    #[verifier::type_invariant]
    spec fn reachable(self) -> bool {
        self@.wf()
    }

    /// An engine between cycles: it waits for `Event::Tick`.
    pub fn new() -> (engine: Engine)
        ensures
            engine@ == EngineState::idle(),
    {
        Engine::in_phase(Phase::Idle)
    }

    /// The phase that the engine is in. Every engine is in a well-formed
    /// state.
    pub fn phase(&self) -> (phase: Phase)
        ensures
            phase == self@.phase,
            self@.wf(),
    {
        proof {
            use_type_invariant(self);
        }
        self.phase
    }

    fn in_phase(phase: Phase) -> (engine: Engine)
        requires
            phase == Phase::Idle || phase == Phase::Loading,
        ensures
            engine@ == (EngineState { phase, ..EngineState::idle() }),
    {
        let records: Vec<SolanaTransaction> = Vec::new();
        assert(rows_of(records@) =~= Seq::<Row>::empty());
        Engine { phase, records, height: 0, cursor: 0 }
    }

    fn rest() -> (next: (Engine, Action))
        ensures
            (next.0@, next.1@) == rest(),
    {
        (Engine::in_phase(Phase::Idle), Action::Sleep { millis: POLL_INTERVAL_MILLIS })
    }

    fn scan(records: Vec<SolanaTransaction>, height: u64, from: usize) -> (next: (Engine, Action))
        requires
            from <= records.len(),
        ensures
            (next.0@, next.1@) == scan(rows_of(records@), height, from as int),
    {
        let ghost rows = rows_of(records@);
        let mut k = from;
        while k < records.len()
            invariant
                from <= k <= records.len(),
                rows == rows_of(records@),
                scan(rows, height, from as int) == scan(rows, height, k as int),
            decreases records.len() - k,
        {
            match plan(&records[k], height) {
                Plan::Skip => {
                    k = k + 1;
                },
                Plan::Expire => {
                    let id = records[k].id;
                    let engine = Engine { phase: Phase::AwaitingWrite, records, height, cursor: k };
                    return (engine, Action::Write { id, transition: Transition::Failed });
                },
                Plan::Query => {
                    let id = records[k].id;
                    let signature = match &records[k].tx_signature {
                        Some(s) => s.clone(),
                        None => String::new(),
                    };
                    let engine = Engine {
                        phase: Phase::AwaitingStatus,
                        records,
                        height,
                        cursor: k,
                    };
                    return (engine, Action::QueryStatus { id, signature });
                },
            }
        }
        Engine::rest()
    }

    /// Takes the result of the last action and returns the engine in its next
    /// state together with the next action.
    pub fn step(self, event: Event) -> (next: (Engine, Action))
        ensures
            (next.0@, next.1@) == step(self@, event@),
    {
        proof {
            use_type_invariant(&self);
        }
        let ghost state = self@;
        let Engine { phase, records, height, cursor } = self;
        assert(state.wf());
        assert(state.phase == phase && state.cursor == cursor && state.height == height);
        assert(state.records == rows_of(records@));
        assert(state.records.len() == records.len());
        match phase {
            Phase::Idle => match event {
                Event::Tick => (Engine::in_phase(Phase::Loading), Action::LoadOutstanding),
                _ => Engine::rest(),
            },
            Phase::Loading => match event {
                Event::Records(Ok(loaded)) => {
                    if loaded.len() == 0 {
                        Engine::rest()
                    } else {
                        let engine = Engine {
                            phase: Phase::AwaitingHeight,
                            records: loaded,
                            height: 0,
                            cursor: 0,
                        };
                        (engine, Action::FetchChainHeight)
                    }
                },
                _ => Engine::rest(),
            },
            Phase::AwaitingHeight => match event {
                Event::ChainHeight(Ok(fetched)) => Engine::scan(records, fetched, 0),
                _ => Engine::rest(),
            },
            Phase::AwaitingStatus => match event {
                Event::Status(Ok(Some(level))) => match advance(records[cursor].status, level) {
                    Some(transition) => {
                        let id = records[cursor].id;
                        let engine = Engine {
                            phase: Phase::AwaitingWrite,
                            records,
                            height,
                            cursor,
                        };
                        (engine, Action::Write { id, transition })
                    },
                    None => Engine::scan(records, height, cursor + 1),
                },
                Event::Status(_) => Engine::scan(records, height, cursor + 1),
                _ => Engine::rest(),
            },
            Phase::AwaitingWrite => match event {
                Event::Written(_) => Engine::scan(records, height, cursor + 1),
                _ => Engine::rest(),
            },
        }
    }
}

} // verus!
