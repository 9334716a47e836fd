//! The translation of what a session reports into the event its caller drains.
//! Everything that changes the hub in response to what a session did happens
//! here, in the order the session did it.

use std::sync::Arc;

use vstd::prelude::*;

use crate::batch::{column_models, ColumnMetadata, ColumnModel, FetchedBatch, ReldexBatch,
    ResultColumns};
use crate::counters::{next_count, previous_count, Kind, LiveCounters};
use crate::error::{DbError, ErrorKind, ErrorModel, ReldexError, ReldexErrorKind,
    ReldexSessionState, SessionLifecycle};
use crate::event::{close_result, deadline_millis, output_setting, texts, BatchModel, EventModel,
    QueuedEvent, ReldexCloseOutcome, ReldexCompletedOperation, ReldexEvent, ReldexEventKind,
    ReldexStatementKind};
use crate::hub::{descriptions, HubModel, Pending, PendingModel, ReldexHub, TakenEvent};
use crate::session::{describes_results, CancelKind, CloseError, ExecuteOutcome, Phase,
    ReldexCancelKind, ResultModel, ServerOutputSetting, SessionModel};

verus! {

/// An operation that was completed, as the core reports it.
#[derive(Debug, Clone, Copy, PartialEq, Eq, Structural)]
pub enum CompletedOperation {
    CloseResult,
    Commit,
    Rollback,
    Savepoint,
    RollbackToSavepoint,
    Ping,
    /// An operation this library does not export.
    Unrecognized,
}

/// One event of a session, as the core reports it. Every request is named by
/// the id the hub gave it.
#[allow(inconsistent_fields)]
pub enum SessionEvent {
    Opened { session: u64, request: u64, connection: u64, cancel_kind: CancelKind, warnings: usize },
    OpenFailed { session: u64, request: u64, error: DbError },
    Executed { session: u64, request: u64, outcome: Result<ExecuteOutcome, DbError> },
    Fetched { session: u64, request: u64, batch: Result<FetchedBatch, DbError> },
    /// `result` is the core's id; a segment is named by its row count.
    FetchedSegment { session: u64, request: u64, result: u64, segment: Result<usize, DbError> },
    Completed {
        session: u64,
        request: u64,
        operation: CompletedOperation,
        done: Result<(), DbError>,
    },
    SessionClosed { session: u64, request: u64, closed: Result<(), CloseError> },
    ServerOutputConfigured {
        session: u64,
        request: u64,
        setting: Result<ServerOutputSetting, DbError>,
    },
    /// Progress: the limit armed on the statement, in milliseconds.
    Executing { session: u64, request: u64, deadline: Option<u128> },
    ServerOutput {
        session: u64,
        lines: Vec<String>,
        dropped: u32,
        failure: Option<DbError>,
        invalid_utf8_lines: u32,
    },
    TransactionStateChanged { session: u64, possibly_active: bool },
    Terminal {
        session: u64,
        lifecycle: SessionLifecycle,
        cause: Option<DbError>,
        transaction_possibly_lost: bool,
    },
    /// An event this library does not know.
    Unrecognized { session: u64, request: Option<u64>, reply: bool },
}

impl SessionEvent {
    /// The session an event belongs to.
    pub open spec fn of_session(self) -> u64 {
        match self {
            SessionEvent::Opened { session, .. } => session,
            SessionEvent::OpenFailed { session, .. } => session,
            SessionEvent::Executed { session, .. } => session,
            SessionEvent::Fetched { session, .. } => session,
            SessionEvent::FetchedSegment { session, .. } => session,
            SessionEvent::Completed { session, .. } => session,
            SessionEvent::SessionClosed { session, .. } => session,
            SessionEvent::ServerOutputConfigured { session, .. } => session,
            SessionEvent::Executing { session, .. } => session,
            SessionEvent::ServerOutput { session, .. } => session,
            SessionEvent::TransactionStateChanged { session, .. } => session,
            SessionEvent::Terminal { session, .. } => session,
            SessionEvent::Unrecognized { session, .. } => session,
        }
    }

    /// The request an event names, if any.
    pub open spec fn names(self) -> Option<u64> {
        match self {
            SessionEvent::Opened { request, .. } => Some(request),
            SessionEvent::OpenFailed { request, .. } => Some(request),
            SessionEvent::Executed { request, .. } => Some(request),
            SessionEvent::Fetched { request, .. } => Some(request),
            SessionEvent::FetchedSegment { request, .. } => Some(request),
            SessionEvent::Completed { request, .. } => Some(request),
            SessionEvent::SessionClosed { request, .. } => Some(request),
            SessionEvent::ServerOutputConfigured { request, .. } => Some(request),
            SessionEvent::Executing { request, .. } => Some(request),
            SessionEvent::ServerOutput { .. } => None,
            SessionEvent::TransactionStateChanged { .. } => None,
            SessionEvent::Terminal { .. } => None,
            SessionEvent::Unrecognized { request, .. } => request,
        }
    }

    /// Whether an event is the one reply to the request it names.
    pub open spec fn replies(self) -> bool {
        match self {
            SessionEvent::Executing { .. } => false,
            SessionEvent::ServerOutput { .. } => false,
            SessionEvent::TransactionStateChanged { .. } => false,
            SessionEvent::Terminal { .. } => false,
            SessionEvent::Unrecognized { reply, .. } => reply,
            _ => true,
        }
    }

    /// Whether an event carries rows, which become a batch.
    pub open spec fn has_batch(self) -> bool {
        self matches SessionEvent::Fetched { batch: Ok(_), .. }
    }

    /// Whether an event carries a failure, which becomes an error.
    pub open spec fn has_error(self) -> bool {
        match self {
            SessionEvent::OpenFailed { .. } => true,
            SessionEvent::Executed { outcome, .. } => outcome is Err,
            SessionEvent::Fetched { batch, .. } => batch is Err,
            SessionEvent::FetchedSegment { segment, .. } => segment is Err,
            SessionEvent::Completed { done, .. } => done is Err,
            SessionEvent::SessionClosed { closed, .. } => closed is Err,
            SessionEvent::ServerOutputConfigured { setting, .. } => setting is Err,
            SessionEvent::ServerOutput { failure, .. } => failure is Some,
            SessionEvent::Terminal { cause, .. } => cause is Some,
            _ => false,
        }
    }

    /// Whether the rows an event carries are complete.
    pub open spec fn wf(self) -> bool {
        self matches SessionEvent::Fetched { batch: Ok(batch), .. } ==> batch.wf()
    }

    /// Whether an event carries rows, which become a batch.
    pub fn carries_batch(&self) -> (carries: bool)
        ensures
            carries == self.has_batch(),
    {
        match self {
            SessionEvent::Fetched { batch, .. } => batch.is_ok(),
            _ => false,
        }
    }

    /// Whether an event carries a failure, which becomes an error.
    pub fn carries_error(&self) -> (carries: bool)
        ensures
            carries == self.has_error(),
    {
        match self {
            SessionEvent::OpenFailed { .. } => true,
            SessionEvent::Executed { outcome, .. } => outcome.is_err(),
            SessionEvent::Fetched { batch, .. } => batch.is_err(),
            SessionEvent::FetchedSegment { segment, .. } => segment.is_err(),
            SessionEvent::Completed { done, .. } => done.is_err(),
            SessionEvent::SessionClosed { closed, .. } => closed.is_err(),
            SessionEvent::ServerOutputConfigured { setting, .. } => setting.is_err(),
            SessionEvent::ServerOutput { failure, .. } => failure.is_some(),
            SessionEvent::Terminal { cause, .. } => cause.is_some(),
            _ => false,
        }
    }

    /// The session an event belongs to.
    pub fn session(&self) -> (session: u64)
        ensures
            session == self.of_session(),
    {
        match self {
            SessionEvent::Opened { session, .. } => *session,
            SessionEvent::OpenFailed { session, .. } => *session,
            SessionEvent::Executed { session, .. } => *session,
            SessionEvent::Fetched { session, .. } => *session,
            SessionEvent::FetchedSegment { session, .. } => *session,
            SessionEvent::Completed { session, .. } => *session,
            SessionEvent::SessionClosed { session, .. } => *session,
            SessionEvent::ServerOutputConfigured { session, .. } => *session,
            SessionEvent::Executing { session, .. } => *session,
            SessionEvent::ServerOutput { session, .. } => *session,
            SessionEvent::TransactionStateChanged { session, .. } => *session,
            SessionEvent::Terminal { session, .. } => *session,
            SessionEvent::Unrecognized { session, .. } => *session,
        }
    }

    /// The request an event names, if any.
    pub fn request(&self) -> (request: Option<u64>)
        ensures
            request == self.names(),
    {
        match self {
            SessionEvent::Opened { request, .. } => Some(*request),
            SessionEvent::OpenFailed { request, .. } => Some(*request),
            SessionEvent::Executed { request, .. } => Some(*request),
            SessionEvent::Fetched { request, .. } => Some(*request),
            SessionEvent::FetchedSegment { request, .. } => Some(*request),
            SessionEvent::Completed { request, .. } => Some(*request),
            SessionEvent::SessionClosed { request, .. } => Some(*request),
            SessionEvent::ServerOutputConfigured { request, .. } => Some(*request),
            SessionEvent::Executing { request, .. } => Some(*request),
            SessionEvent::ServerOutput { .. } => None,
            SessionEvent::TransactionStateChanged { .. } => None,
            SessionEvent::Terminal { .. } => None,
            SessionEvent::Unrecognized { request, .. } => *request,
        }
    }

    /// Whether an event is the one reply to the request it names.
    pub fn is_reply(&self) -> (reply: bool)
        ensures
            reply == self.replies(),
    {
        match self {
            SessionEvent::Executing { .. } => false,
            SessionEvent::ServerOutput { .. } => false,
            SessionEvent::TransactionStateChanged { .. } => false,
            SessionEvent::Terminal { .. } => false,
            SessionEvent::Unrecognized { reply, .. } => *reply,
            _ => true,
        }
    }
}

/// Whether an event becomes one of the kinds that callers of the earlier
/// interface versions do not know.
pub open spec fn newer_kind(event: SessionEvent) -> bool {
    event is Executing || event is TransactionStateChanged || event is FetchedSegment
}

/// Whether an event becomes one of the kinds that callers of the earlier
/// interface versions do not know. None of them owns anything a caller must
/// release, and none answers a request such a caller can make.
pub fn introduced_in_3_2(event: &SessionEvent) -> (newer: bool)
    ensures
        newer == newer_kind(*event),
{
    match event {
        SessionEvent::Executing { .. } => true,
        SessionEvent::TransactionStateChanged { .. } => true,
        SessionEvent::FetchedSegment { .. } => true,
        _ => false,
    }
}

/// What the core says of a session when one of its events is taken.
#[derive(Debug, Clone, Copy)]
pub struct SessionFacts {
    /// Whether the core hands the session out.
    pub ready: bool,
    /// Where the session is in its life, by its handle.
    pub lifecycle: SessionLifecycle,
    /// Output lines the session lost that no delivered event has reported.
    pub dropped_lines: u32,
}

/// What an event owes the caller: all of it when the event is its request's one
/// reply, only the caller's id when it is progress that the reply will follow.
pub open spec fn owed(hub: HubModel, event: SessionEvent) -> Option<PendingModel> {
    match event.names() {
        Some(request) if hub.pending.contains_key(request) => Some(
            if event.replies() {
                hub.pending[request]
            } else {
                PendingModel::caller(hub.pending[request].caller)
            },
        ),
        _ => None,
    }
}

/// The hub once an event has been matched with its request: a reply settles it.
pub open spec fn matched(hub: HubModel, event: SessionEvent) -> HubModel {
    match event.names() {
        Some(request) if event.replies() => hub.settled(request),
        _ => hub,
    }
}

/// The caller's id of the request an event names, zero where there is none.
pub open spec fn owed_caller(hub: HubModel, event: SessionEvent) -> u64 {
    match owed(hub, event) {
        Some(pending) => pending.caller,
        None => 0,
    }
}

/// The request an event answers by the caller's id. Only a reply answers one.
pub open spec fn answered(hub: HubModel, event: SessionEvent) -> u64 {
    if event.replies() {
        owed_caller(hub, event)
    } else {
        0
    }
}

/// The result an event's request named.
pub open spec fn owed_result(hub: HubModel, event: SessionEvent) -> Option<u64> {
    match owed(hub, event) {
        Some(pending) => pending.result,
        None => None,
    }
}

/// The session an event belongs to, where the hub still has it.
pub open spec fn session_of(hub: HubModel, event: SessionEvent) -> Option<SessionModel> {
    if hub.sessions.contains_key(event.of_session()) {
        Some(hub.sessions[event.of_session()])
    } else {
        None
    }
}

/// The session's state when the event is taken.
pub open spec fn state_now(hub: HubModel, event: SessionEvent, facts: SessionFacts)
    -> ReldexSessionState {
    match session_of(hub, event) {
        Some(session) => session.state(facts.lifecycle),
        None => ReldexSessionState::Unknown,
    }
}

/// An event that carries a failure. It reports the session's state when the
/// event is taken; of a session that is gone, what the failure says.
pub open spec fn failure(
    event: EventModel,
    error: ErrorModel,
    hub: HubModel,
    taken: SessionEvent,
    facts: SessionFacts,
) -> EventModel {
    EventModel {
        error: Some(error),
        session_state: match session_of(hub, taken) {
            Some(session) => session.state(facts.lifecycle),
            None => error.session_state,
        },
        ..event
    }
}

/// An event of a request that succeeded, which left the session usable.
pub open spec fn success(event: EventModel) -> EventModel {
    EventModel { session_state: ReldexSessionState::Usable, ..event }
}

/// The stable operation of a completed one.
pub open spec fn operation_of(operation: CompletedOperation) -> ReldexCompletedOperation {
    match operation {
        CompletedOperation::Commit => ReldexCompletedOperation::Commit,
        CompletedOperation::Rollback => ReldexCompletedOperation::Rollback,
        CompletedOperation::Savepoint => ReldexCompletedOperation::Savepoint,
        CompletedOperation::RollbackToSavepoint => ReldexCompletedOperation::RollbackToSavepoint,
        CompletedOperation::Ping => ReldexCompletedOperation::Ping,
        CompletedOperation::CloseResult => ReldexCompletedOperation::Unknown,
        CompletedOperation::Unrecognized => ReldexCompletedOperation::Unknown,
    }
}

/// The stable operation of a completed one.
fn completed_operation(operation: CompletedOperation) -> (stable: ReldexCompletedOperation)
    ensures
        stable == operation_of(operation),
{
    match operation {
        CompletedOperation::Commit => ReldexCompletedOperation::Commit,
        CompletedOperation::Rollback => ReldexCompletedOperation::Rollback,
        CompletedOperation::Savepoint => ReldexCompletedOperation::Savepoint,
        CompletedOperation::RollbackToSavepoint => ReldexCompletedOperation::RollbackToSavepoint,
        CompletedOperation::Ping => ReldexCompletedOperation::Ping,
        CompletedOperation::CloseResult => ReldexCompletedOperation::Unknown,
        CompletedOperation::Unrecognized => ReldexCompletedOperation::Unknown,
    }
}

/// The failure a close is reported with. A missing decision is no failure of
/// anything, so it is a transaction error that carries the explanation.
pub open spec fn close_failure(error: CloseError) -> ErrorModel {
    match error {
        CloseError::DecisionRequired { explanation } => ErrorModel::plain(
            ReldexErrorKind::Transaction,
            explanation@,
        ),
        CloseError::CommitFailed(inner) => inner@,
        CloseError::RollbackFailed(inner) => inner@,
        CloseError::Failed(inner) => inner@,
    }
}

/// The failure a close is reported with.
fn close_error_to_reldex(live: &mut LiveCounters, error: CloseError) -> (crossed: ReldexError)
    ensures
        crossed@ == close_failure(error),
        *final(live) == old(live).plus(Kind::Error),
{
    match error {
        CloseError::DecisionRequired { explanation } => {
            let error = DbError::new(ErrorKind::Transaction, explanation);
            ReldexError::from_db_error(live, &error)
        },
        CloseError::CommitFailed(inner) => ReldexError::from_db_error(live, &inner),
        CloseError::RollbackFailed(inner) => ReldexError::from_db_error(live, &inner),
        CloseError::Failed(inner) => ReldexError::from_db_error(live, &inner),
    }
}

/// A reply that says nothing but which request it answers.
pub open spec fn reply_to(hub: HubModel, event: SessionEvent, kind: ReldexEventKind) -> EventModel {
    EventModel::blank(kind, event.of_session(), answered(hub, event))
}

/// What a caller is told of an event.
pub open spec fn translated(
    hub: HubModel,
    event: SessionEvent,
    facts: SessionFacts,
    told: EventModel,
) -> bool {
    let session = event.of_session();
    let now = state_now(hub, event, facts);
    match event {
        SessionEvent::Opened { connection, cancel_kind, warnings, .. } => told == success(
            EventModel {
                connection_id: connection,
                cancel_kind: ReldexCancelKind::of(cancel_kind),
                warning_count: warnings,
                ..reply_to(hub, event, ReldexEventKind::Opened)
            },
        ),
        SessionEvent::OpenFailed { error, .. } => told == (EventModel {
            error: Some(error@),
            session_state: if error.kind == ErrorKind::Cancelled {
                ReldexSessionState::Closed
            } else {
                ReldexSessionState::Lost
            },
            ..reply_to(hub, event, ReldexEventKind::Opened)
        }),
        SessionEvent::Executed { outcome, .. } => told == match outcome {
            Ok(outcome) => success(
                EventModel {
                    result: match (outcome.result, session_of(hub, event)) {
                        (Some(_), Some(session)) => Some(session.next_result),
                        _ => None,
                    },
                    rows_affected: outcome.rows_affected,
                    statement_kind: ReldexStatementKind::of(outcome.statement_kind),
                    committed_implicitly: outcome.committed_implicitly,
                    column_count: outcome.columns@.len() as usize,
                    ..reply_to(hub, event, ReldexEventKind::Executed)
                },
            ),
            Err(error) => failure(reply_to(hub, event, ReldexEventKind::Executed), error@, hub, event, facts),
        },
        SessionEvent::Fetched { batch, .. } => {
            let named = EventModel {
                result: owed_result(hub, event),
                ..reply_to(hub, event, ReldexEventKind::Fetched)
            };
            told == match batch {
                Ok(batch) => success(
                    EventModel {
                        batch: Some(
                            BatchModel { table: batch, columns: owed_columns(hub, event) },
                        ),
                        row_count: batch.row_count,
                        ..named
                    },
                ),
                Err(error) => failure(named, error@, hub, event, facts),
            }
        },
        SessionEvent::FetchedSegment { result, segment, .. } => {
            let named = EventModel {
                result: told.result,
                ..reply_to(hub, event, ReldexEventKind::FetchedSegment)
            };
            &&& told == match segment {
                Ok(rows) => success(EventModel { row_count: rows, ..named }),
                Err(error) => failure(named, error@, hub, event, facts),
            }
            &&& names_result(session_of(hub, event), result, told.result)
        },
        SessionEvent::Completed { operation, done, .. } => {
            let named = if operation == CompletedOperation::CloseResult {
                EventModel {
                    result: owed_result(hub, event),
                    ..reply_to(hub, event, ReldexEventKind::ResultClosed)
                }
            } else {
                EventModel {
                    completed_operation: operation_of(operation),
                    ..reply_to(hub, event, ReldexEventKind::Completed)
                }
            };
            told == match done {
                Ok(_) => success(named),
                Err(error) => failure(named, error@, hub, event, facts),
            }
        },
        SessionEvent::SessionClosed { closed, .. } => told == (EventModel {
            close_outcome: close_result(closed).0,
            session_still_open: close_result(closed).1,
            error: match closed {
                Ok(_) => None,
                Err(error) => Some(close_failure(error)),
            },
            session_state: if close_result(closed).1 {
                now
            } else {
                ReldexSessionState::Closed
            },
            ..reply_to(hub, event, ReldexEventKind::SessionClosed)
        }),
        SessionEvent::ServerOutputConfigured { setting, .. } => told == match setting {
            Ok(setting) => success(
                EventModel {
                    server_output_mode: output_setting(setting).0,
                    server_output_buffer_bytes: output_setting(setting).1,
                    ..reply_to(hub, event, ReldexEventKind::ServerOutputConfigured)
                },
            ),
            Err(error) => failure(
                reply_to(hub, event, ReldexEventKind::ServerOutputConfigured),
                error@,
                hub,
                event,
                facts,
            ),
        },
        SessionEvent::Executing { deadline, .. } => told == (EventModel {
            executing_request: owed_caller(hub, event),
            deadline_ms: deadline_millis(deadline),
            session_state: now,
            ..EventModel::blank(ReldexEventKind::Executing, session, 0)
        }),
        SessionEvent::ServerOutput { lines, dropped, failure, invalid_utf8_lines, .. } => told == (
        EventModel {
            server_output_dropped: dropped,
            server_output_invalid_utf8_lines: invalid_utf8_lines,
            server_output_lines: if lines@.len() > 0 {
                Some(texts(lines@))
            } else {
                None
            },
            error: match failure {
                Some(failure) => Some(failure@),
                None => None,
            },
            session_state: now,
            ..EventModel::blank(ReldexEventKind::ServerOutput, session, 0)
        }),
        SessionEvent::TransactionStateChanged { possibly_active, .. } => told == (EventModel {
            transaction_possibly_active: possibly_active,
            session_state: now,
            ..EventModel::blank(ReldexEventKind::TransactionState, session, 0)
        }),
        SessionEvent::Terminal { lifecycle, cause, transaction_possibly_lost, .. } => told == (
        EventModel {
            error: match cause {
                Some(cause) => Some(cause@),
                None => None,
            },
            server_output_dropped: facts.dropped_lines,
            session_state: ReldexSessionState::of_lifecycle(lifecycle),
            transaction_possibly_lost,
            abandoned: match session_of(hub, event) {
                Some(session) => session.abandoned,
                None => false,
            },
            ..EventModel::blank(ReldexEventKind::Terminal, session, 0)
        }),
        SessionEvent::Unrecognized { .. } => told == reply_to(hub, event, ReldexEventKind::Unknown),
    }
}

/// The columns a fetched batch is described with.
pub open spec fn owed_columns(hub: HubModel, event: SessionEvent) -> Seq<ColumnModel> {
    match owed(hub, event) {
        Some(pending) => match pending.columns {
            Some(columns) => columns,
            None => Seq::empty(),
        },
        None => Seq::empty(),
    }
}

/// Whether `key` names the open result that the core calls `id`, if there is
/// one.
pub open spec fn names_result(session: Option<SessionModel>, id: u64, key: Option<u64>) -> bool {
    match (session, key) {
        (Some(session), Some(key)) => {
            session.results.contains_key(key) && session.results[key].id == id
        },
        (Some(session), None) => forall|key: u64| #[trigger]
            session.results.contains_key(key) ==> session.results[key].id != id,
        (None, key) => key is None,
    }
}

/// The hub once an event has been translated, but for the descriptions a lost
/// session leaves.
pub open spec fn hub_after(hub: HubModel, event: SessionEvent, facts: SessionFacts) -> HubModel {
    let id = event.of_session();
    let settled = matched(hub, event);
    match session_of(hub, event) {
        None => settled,
        Some(session) => match event {
            SessionEvent::Opened { .. } => settled.with_session(id, session.asked(facts.ready)),
            SessionEvent::OpenFailed { .. } => settled.with_session(
                id,
                SessionModel { phase: Phase::Closed, ..session },
            ),
            SessionEvent::Executed { outcome: Ok(outcome), .. } => match outcome.result {
                Some(result) => settled.with_session(
                    id,
                    session.with_result(result, column_models(outcome.columns@)),
                ),
                None => settled,
            },
            SessionEvent::Completed { operation: CompletedOperation::CloseResult, .. } => {
                match owed_result(hub, event) {
                    Some(closed) => settled.with_session(
                        id,
                        SessionModel { results: session.results.remove(closed), ..session },
                    ),
                    None => settled,
                }
            },
            SessionEvent::SessionClosed { closed, .. } => if close_result(closed).1 {
                settled
            } else {
                settled.with_session(id, session.closed())
            },
            SessionEvent::Terminal { .. } => HubModel {
                sessions: settled.sessions.remove(id),
                ..settled
            },
            _ => settled,
        },
    }
}

/// The descriptions a hub keeps once an event has been translated: those of a
/// session that ended without the caller ending it are kept, and none go.
pub open spec fn keeps_descriptions(hub: HubModel, event: SessionEvent, after: HubModel) -> bool {
    match (event, session_of(hub, event)) {
        (SessionEvent::Terminal { .. }, Some(session)) if !session.caller_ended => {
            exists|more: Seq<Arc<ResultColumns>>| #[trigger]
                describes_results(more, session.results) && after.orphaned == hub.orphaned
                    + descriptions(more)
        },
        _ => after.orphaned == hub.orphaned,
    }
}

/// The live objects once an event has been translated.
pub open spec fn live_after(live: LiveCounters, hub: HubModel, event: SessionEvent) -> LiveCounters {
    match event {
        SessionEvent::OpenFailed { .. } => live.plus(Kind::Error),
        SessionEvent::Executed { outcome: Err(_), .. } => live.plus(Kind::Error),
        SessionEvent::Fetched { batch, .. } => match batch {
            Ok(_) => live.plus(Kind::Batch),
            Err(_) => live.plus(Kind::Error),
        },
        SessionEvent::FetchedSegment { segment: Err(_), .. } => live.plus(Kind::Error),
        SessionEvent::Completed { done: Err(_), .. } => live.plus(Kind::Error),
        SessionEvent::SessionClosed { closed: Err(_), .. } => live.plus(Kind::Error),
        SessionEvent::ServerOutputConfigured { setting: Err(_), .. } => live.plus(Kind::Error),
        SessionEvent::ServerOutput { lines, failure, .. } => {
            let lined = if lines@.len() > 0 {
                live.plus(Kind::ServerOutputLines)
            } else {
                live
            };
            if failure is Some {
                lined.plus(Kind::Error)
            } else {
                lined
            }
        },
        SessionEvent::Terminal { cause, .. } => {
            let failed = if cause is Some {
                live.plus(Kind::Error)
            } else {
                live
            };
            if session_of(hub, event) is Some {
                failed.minus(Kind::Session)
            } else {
                failed
            }
        },
        _ => live,
    }
}

impl ReldexHub {
    /// What `event` owes the caller: taken out when `event` is its request's
    /// one reply, only read when it is progress that the reply will follow.
    pub fn pending_for(&mut self, event: &SessionEvent) -> (pending: Option<Pending>)
        ensures
            match pending {
                Some(pending) => owed(old(self)@, *event) == Some(pending@),
                None => owed(old(self)@, *event) is None,
            },
            final(self)@ == matched(old(self)@, *event),
    {
        match event.request() {
            None => None,
            Some(request) => if event.is_reply() {
                self.pending.remove(request)
            } else {
                match self.pending.get(request) {
                    Some(known) => Some(Pending::caller(known.caller)),
                    None => None,
                }
            },
        }
    }

    /// Retires a session that ended: removes its entry, and keeps the column
    /// descriptions whose lifetime nothing the caller did has ended. Returns
    /// whether the caller abandoned it.
    fn retire(&mut self, live: &mut LiveCounters, id: u64) -> (abandoned: bool)
        ensures
            final(self)@.sessions == old(self)@.sessions.remove(id),
            final(self)@.pending == old(self)@.pending,
            final(self)@.next_request == old(self)@.next_request,
            abandoned == (old(self)@.sessions.contains_key(id) && old(self)@.sessions[id].abandoned),
            *final(live) == if old(self)@.sessions.contains_key(id) {
                old(live).minus(Kind::Session)
            } else {
                *old(live)
            },
            old(self)@.sessions.contains_key(id) && !old(self)@.sessions[id].caller_ended
                ==> exists|more: Seq<Arc<ResultColumns>>| #[trigger]
                describes_results(more, old(self)@.sessions[id].results)
                    && final(self)@.orphaned == old(self)@.orphaned + descriptions(more),
            !(old(self)@.sessions.contains_key(id) && !old(self)@.sessions[id].caller_ended)
                ==> final(self)@.orphaned == old(self)@.orphaned,
    {
        match self.sessions.remove(id) {
            None => {
                assert(old(self)@.sessions.remove(id) =~= old(self)@.sessions);
                false
            },
            Some(mut entry) => {
                let ended = entry.end();
                live.destroyed(Kind::Session);
                if !ended.caller_ended {
                    self.orphan_columns(ended.columns);
                }
                ended.abandoned
            },
        }
    }
}

/// Attaches a failure, and the session's state where it is known.
fn failed(
    event: QueuedEvent,
    live: &mut LiveCounters,
    error: &DbError,
    known: Option<ReldexSessionState>,
) -> (told: QueuedEvent)
    requires
        event.error is None,
        event.wf(),
    ensures
        told.wf(),
        told@ == (EventModel {
            error: Some(error@),
            session_state: match known {
                Some(state) => state,
                None => error@.session_state,
            },
            ..event@
        }),
        *final(live) == old(live).plus(Kind::Error),
{
    let event = event.with_error(ReldexError::from_db_error(live, error));
    match known {
        Some(state) => event.with_session_state(state),
        None => event,
    }
}

/// Names a result, where there is one to name.
fn with_optional_result(event: QueuedEvent, result: Option<u64>) -> (named: QueuedEvent)
    requires
        event@.result is None,
    ensures
        named@ == (EventModel { result, ..event@ }),
        named.wf() == event.wf(),
{
    match result {
        Some(result) => event.with_result(result),
        None => event,
    }
}

/// A successful connect: the session becomes usable.
fn translate_opened(
    hub: &mut ReldexHub,
    reply: QueuedEvent,
    connection: u64,
    cancel_kind: CancelKind,
    warnings: usize,
    ready: bool,
) -> (told: QueuedEvent)
    requires
        reply.wf(),
    ensures
        told.wf(),
        told@ == success(
            EventModel {
                connection_id: connection,
                cancel_kind: ReldexCancelKind::of(cancel_kind),
                warning_count: warnings,
                ..reply@
            },
        ),
        final(hub)@ == if old(hub)@.sessions.contains_key(reply@.session) {
            old(hub)@.with_session(
                reply@.session,
                old(hub)@.sessions[reply@.session].asked(ready),
            )
        } else {
            old(hub)@
        },
{
    let key: u64 = reply.session;
    if let Some(mut entry) = hub.sessions.remove(key) {
        entry.handle(ready);
        hub.sessions.insert(key, entry);
    }
    assert(hub@.sessions =~= if old(hub)@.sessions.contains_key(key) {
        old(hub)@.sessions.insert(key, old(hub)@.sessions[key].asked(ready))
    } else {
        old(hub)@.sessions
    });
    QueuedEvent {
        connection_id: connection,
        cancel_kind: ReldexCancelKind::from_cancel_kind(cancel_kind),
        warning_count: warnings,
        ..reply
    }.with_session_state(ReldexSessionState::Usable)
}

/// A failed connect. Its state mirrors the end that follows: an abandoned
/// connect ended deliberately, a failed one was lost.
fn translate_open_failed(
    live: &mut LiveCounters,
    hub: &mut ReldexHub,
    reply: QueuedEvent,
    error: DbError,
) -> (told: QueuedEvent)
    requires
        reply.wf(),
        reply@.error is None,
    ensures
        told.wf(),
        told@ == (EventModel {
            error: Some(error@),
            session_state: if error.kind == ErrorKind::Cancelled {
                ReldexSessionState::Closed
            } else {
                ReldexSessionState::Lost
            },
            ..reply@
        }),
        final(hub)@ == if old(hub)@.sessions.contains_key(reply@.session) {
            old(hub)@.with_session(
                reply@.session,
                SessionModel { phase: Phase::Closed, ..old(hub)@.sessions[reply@.session] },
            )
        } else {
            old(hub)@
        },
        *final(live) == old(live).plus(Kind::Error),
{
    let key: u64 = reply.session;
    if let Some(mut entry) = hub.sessions.remove(key) {
        entry.phase = Phase::Closed;
        hub.sessions.insert(key, entry);
    }
    assert(hub@.sessions =~= if old(hub)@.sessions.contains_key(key) {
        old(hub)@.sessions.insert(
            key,
            SessionModel { phase: Phase::Closed, ..old(hub)@.sessions[key] },
        )
    } else {
        old(hub)@.sessions
    });
    let ended = match error.kind {
        ErrorKind::Cancelled => ReldexSessionState::Closed,
        _ => ReldexSessionState::Lost,
    };
    reply.with_error(ReldexError::from_db_error(live, &error)).with_session_state(ended)
}

/// A statement that ran: its result set, if it opened one, gets a key.
fn translate_executed(hub: &mut ReldexHub, reply: QueuedEvent, outcome: ExecuteOutcome) -> (
    told: QueuedEvent)
    requires
        reply.wf(),
        reply@.result is None,
    ensures
        told.wf(),
        ({
            let key = reply@.session;
            let registers = outcome.result is Some && old(hub)@.sessions.contains_key(key);
            &&& told@ == success(
                EventModel {
                    result: if registers {
                        Some(old(hub)@.sessions[key].next_result)
                    } else {
                        None
                    },
                    rows_affected: outcome.rows_affected,
                    statement_kind: ReldexStatementKind::of(outcome.statement_kind),
                    committed_implicitly: outcome.committed_implicitly,
                    column_count: outcome.columns@.len() as usize,
                    ..reply@
                },
            )
            &&& final(hub)@ == if registers {
                old(hub)@.with_session(
                    key,
                    old(hub)@.sessions[key].with_result(
                        outcome.result->0,
                        column_models(outcome.columns@),
                    ),
                )
            } else {
                old(hub)@
            }
        }),
{
    let key: u64 = reply.session;
    let column_count: usize = outcome.columns.len();
    let ghost columns_before = outcome.columns@;
    let mut result: Option<u64> = None;
    let told = reply.with_execute_outcome(&outcome, None, column_count);
    if let Some(opened) = outcome.result {
        if let Some(mut entry) = hub.sessions.remove(key) {
            let columns = ResultColumns::new(outcome.columns);
            result = Some(entry.register_result(opened, columns));
            hub.sessions.insert(key, entry);
            assert(hub@.sessions =~= old(hub)@.sessions.insert(
                key,
                old(hub)@.sessions[key].with_result(opened, column_models(columns_before)),
            ));
        } else {
            assert(hub@.sessions =~= old(hub)@.sessions);
        }
    }
    with_optional_result(told, result).with_session_state(ReldexSessionState::Usable)
}

/// Rows that were fetched.
fn translate_fetched(
    live: &mut LiveCounters,
    reply: QueuedEvent,
    batch: FetchedBatch,
    columns: Option<Arc<ResultColumns>>,
) -> (told: QueuedEvent)
    requires
        reply.wf(),
        reply@.batch is None,
        batch.wf(),
    ensures
        told.wf(),
        told@ == success(
            EventModel {
                batch: Some(
                    BatchModel {
                        table: batch,
                        columns: match columns {
                            Some(columns) => columns@,
                            None => Seq::empty(),
                        },
                    },
                ),
                row_count: batch.row_count,
                ..reply@
            },
        ),
        *final(live) == old(live).plus(Kind::Batch),
{
    let rows: usize = batch.row_count;
    let columns = match columns {
        Some(columns) => columns,
        None => {
            let none: Vec<ColumnMetadata> = Vec::new();
            let empty = ResultColumns::new(none);
            assert(empty@ =~= Seq::empty());
            empty
        },
    };
    let owned = ReldexBatch::new(live, batch, columns);
    reply.with_batch(owned, rows).with_session_state(ReldexSessionState::Usable)
}

/// Forgets a result the caller closed, in the session that had it.
fn forget_closed(hub: &mut ReldexHub, key: u64, closed: Option<u64>)
    ensures
        final(hub)@ == match closed {
            Some(closed) if old(hub)@.sessions.contains_key(key) => old(hub)@.with_session(
                key,
                SessionModel {
                    results: old(hub)@.sessions[key].results.remove(closed),
                    ..old(hub)@.sessions[key]
                },
            ),
            _ => old(hub)@,
        },
{
    if let Some(closed) = closed {
        if let Some(mut entry) = hub.sessions.remove(key) {
            entry.forget_result(closed);
            hub.sessions.insert(key, entry);
            assert(hub@.sessions =~= old(hub)@.sessions.insert(
                key,
                SessionModel {
                    results: old(hub)@.sessions[key].results.remove(closed),
                    ..old(hub)@.sessions[key]
                },
            ));
        } else {
            assert(hub@.sessions =~= old(hub)@.sessions);
        }
    }
}

/// A close that was answered. One that leaves the session open changes nothing.
fn translate_closed(
    live: &mut LiveCounters,
    hub: &mut ReldexHub,
    reply: QueuedEvent,
    closed: Result<(), CloseError>,
    now: ReldexSessionState,
) -> (told: QueuedEvent)
    requires
        reply.wf(),
        reply@.error is None,
    ensures
        told.wf(),
        told@ == (EventModel {
            close_outcome: close_result(closed).0,
            session_still_open: close_result(closed).1,
            error: match closed {
                Ok(_) => None,
                Err(error) => Some(close_failure(error)),
            },
            session_state: if close_result(closed).1 {
                now
            } else {
                ReldexSessionState::Closed
            },
            ..reply@
        }),
        final(hub)@ == if !close_result(closed).1 && old(hub)@.sessions.contains_key(
            reply@.session,
        ) {
            old(hub)@.with_session(reply@.session, old(hub)@.sessions[reply@.session].closed())
        } else {
            old(hub)@
        },
        *final(live) == if closed is Err {
            old(live).plus(Kind::Error)
        } else {
            *old(live)
        },
{
    let key: u64 = reply.session;
    let reply = reply.with_close_outcome(&closed);
    let still_open = reply.session_still_open;
    let reply = match closed {
        Ok(_) => reply,
        Err(error) => reply.with_error(close_error_to_reldex(live, error)),
    };
    if still_open {
        return reply.with_session_state(now);
    }
    if let Some(mut entry) = hub.sessions.remove(key) {
        entry.close();
        hub.sessions.insert(key, entry);
        assert(hub@.sessions =~= old(hub)@.sessions.insert(
            key,
            old(hub)@.sessions[key].closed(),
        ));
    } else {
        assert(hub@.sessions =~= old(hub)@.sessions);
    }
    reply.with_session_state(ReldexSessionState::Closed)
}

/// Turns one event of a session into the event the caller drains.
#[verifier::rlimit(60)]
#[verifier::spinoff_prover]
pub fn translate(
    live: &mut LiveCounters,
    hub: &mut ReldexHub,
    event: SessionEvent,
    facts: SessionFacts,
) -> (told: QueuedEvent)
    requires
        event.wf(),
    ensures
        told.wf(),
        translated(old(hub)@, event, facts, told@),
        final(hub)@.sessions == hub_after(old(hub)@, event, facts).sessions,
        final(hub)@.pending == hub_after(old(hub)@, event, facts).pending,
        final(hub)@.next_request == old(hub)@.next_request,
        keeps_descriptions(old(hub)@, event, final(hub)@),
        *final(live) == live_after(*old(live), old(hub)@, event),
{
    let pending = hub.pending_for(&event);
    let caller: u64 = match &pending {
        Some(pending) => pending.caller,
        None => 0,
    };
    let answered: u64 = if event.is_reply() {
        caller
    } else {
        0
    };
    let key: u64 = event.session();
    let known = match hub.sessions.get(key) {
        Some(entry) => Some(entry.state(facts.lifecycle)),
        None => None,
    };
    let now = match known {
        Some(state) => state,
        None => ReldexSessionState::Unknown,
    };
    let usable = ReldexSessionState::Usable;
    match event {
        SessionEvent::Opened { connection, cancel_kind, warnings, .. } => translate_opened(
            hub,
            QueuedEvent::new(ReldexEventKind::Opened, key, answered),
            connection,
            cancel_kind,
            warnings,
            facts.ready,
        ),
        SessionEvent::OpenFailed { error, .. } => translate_open_failed(
            live,
            hub,
            QueuedEvent::new(ReldexEventKind::Opened, key, answered),
            error,
        ),
        SessionEvent::Executed { outcome, .. } => {
            let reply = QueuedEvent::new(ReldexEventKind::Executed, key, answered);
            match outcome {
                Ok(outcome) => translate_executed(hub, reply, outcome),
                Err(error) => failed(reply, live, &error, known),
            }
        },
        SessionEvent::Fetched { batch, .. } => {
            let (result, columns) = match pending {
                Some(pending) => (pending.result, pending.columns),
                None => (None, None),
            };
            let reply = with_optional_result(
                QueuedEvent::new(ReldexEventKind::Fetched, key, answered),
                result,
            );
            match batch {
                Ok(batch) => translate_fetched(live, reply, batch, columns),
                Err(error) => failed(reply, live, &error, known),
            }
        },
        SessionEvent::FetchedSegment { result, segment, .. } => {
            let named = match hub.sessions.get(key) {
                Some(entry) => entry.result_key(result),
                None => None,
            };
            let reply = with_optional_result(
                QueuedEvent::new(ReldexEventKind::FetchedSegment, key, answered),
                named,
            );
            match segment {
                Ok(rows) => QueuedEvent { row_count: rows, ..reply }.with_session_state(usable),
                Err(error) => failed(reply, live, &error, known),
            }
        },
        SessionEvent::Completed { operation, done, .. } => {
            let reply = match operation {
                CompletedOperation::CloseResult => {
                    let closed = match pending {
                        Some(pending) => pending.result,
                        None => None,
                    };
                    forget_closed(hub, key, closed);
                    with_optional_result(
                        QueuedEvent::new(ReldexEventKind::ResultClosed, key, answered),
                        closed,
                    )
                },
                _ => QueuedEvent::new(
                    ReldexEventKind::Completed,
                    key,
                    answered,
                ).with_completed_operation(completed_operation(operation)),
            };
            match done {
                Ok(_) => reply.with_session_state(usable),
                Err(error) => failed(reply, live, &error, known),
            }
        },
        SessionEvent::SessionClosed { closed, .. } => translate_closed(
            live,
            hub,
            QueuedEvent::new(ReldexEventKind::SessionClosed, key, answered),
            closed,
            now,
        ),
        SessionEvent::ServerOutputConfigured { setting, .. } => {
            let reply = QueuedEvent::new(ReldexEventKind::ServerOutputConfigured, key, answered);
            match setting {
                Ok(setting) => reply.with_server_output_setting(setting).with_session_state(usable),
                Err(error) => failed(reply, live, &error, known),
            }
        },
        SessionEvent::Executing { deadline, .. } => QueuedEvent::new(
            ReldexEventKind::Executing,
            key,
            0,
        ).with_executing(caller, deadline).with_session_state(now),
        SessionEvent::ServerOutput { lines, dropped, failure, invalid_utf8_lines, .. } => {
            QueuedEvent::new(ReldexEventKind::ServerOutput, key, 0).with_server_output(
                live,
                lines,
                dropped,
                invalid_utf8_lines,
                failure.as_ref(),
            ).with_session_state(now)
        },
        SessionEvent::TransactionStateChanged { possibly_active, .. } => QueuedEvent::new(
            ReldexEventKind::TransactionState,
            key,
            0,
        ).with_transaction_possibly_active(possibly_active).with_session_state(now),
        SessionEvent::Terminal { lifecycle, cause, transaction_possibly_lost, .. } => {
            let told = QueuedEvent::new(ReldexEventKind::Terminal, key, 0);
            let told = match cause {
                Some(cause) => told.with_error(ReldexError::from_db_error(live, &cause)),
                None => told,
            };
            let abandoned = hub.retire(live, key);
            QueuedEvent {
                server_output_dropped: facts.dropped_lines,
                ..told
            }.with_session_state(ReldexSessionState::from_lifecycle(lifecycle)).with_terminal(
                transaction_possibly_lost,
                abandoned,
            )
        },
        SessionEvent::Unrecognized { .. } => QueuedEvent::new(
            ReldexEventKind::Unknown,
            key,
            answered,
        ),
    }
}

/// Only a reply carries the caller's id of a request, and it carries that of the
/// request it answers. Progress and notifications carry zero.
pub proof fn only_a_reply_answers(
    hub: HubModel,
    event: SessionEvent,
    facts: SessionFacts,
    told: EventModel,
)
    requires
        translated(hub, event, facts, told),
    ensures
        told.session == event.of_session(),
        !event.replies() ==> told.request == 0,
        event.replies() ==> told.request == owed_caller(hub, event),
        event.replies() && event.names() is Some && hub.pending.contains_key(event.names()->0)
            ==> told.request == hub.pending[event.names()->0].caller,
{
}

/// A request is answered once: behind its reply, nothing that names it is owed
/// anything any more.
pub proof fn a_request_is_answered_once(hub: HubModel, reply: SessionEvent, later: SessionEvent)
    requires
        reply.replies(),
        reply.names() is Some,
        later.names() == reply.names(),
    ensures
        owed(matched(hub, reply), later) is None,
        answered(matched(hub, reply), later) == 0,
{
}

/// Whether an event answers the request that the hub calls `request`.
pub open spec fn answers(hub: HubModel, event: SessionEvent, request: u64) -> bool {
    event.replies() && event.names() == Some(request) && owed(hub, event) is Some
}

/// How many of a hub's next events answer the request `request`.
pub open spec fn answers_to(hub: HubModel, events: Seq<TakenEvent>, request: u64) -> nat
    decreases events.len(),
{
    if events.len() == 0 {
        0
    } else {
        let first = events[0];
        let rest = answers_to(
            hub_after(hub, first.event, first.facts),
            events.drop_first(),
            request,
        );
        if answers(hub, first.event, request) {
            1 + rest
        } else {
            rest
        }
    }
}

/// Whether one of the events is a reply that names `request`.
pub open spec fn replied(events: Seq<TakenEvent>, request: u64) -> bool {
    exists|i: int|
        0 <= i < events.len() && (#[trigger] events[i]).event.replies() && events[i].event.names()
            == Some(request)
}

/// Of all the events of a hub, exactly one answers an accepted request once its
/// reply is among them, and none answers a request that is not waiting.
pub proof fn exactly_one_event_answers_a_request(
    hub: HubModel,
    events: Seq<TakenEvent>,
    request: u64,
)
    ensures
        answers_to(hub, events, request) == if hub.pending.contains_key(request) && replied(
            events,
            request,
        ) {
            1nat
        } else {
            0nat
        },
    decreases events.len(),
{
    if events.len() > 0 {
        let first = events[0];
        let rest = events.drop_first();
        let after = hub_after(hub, first.event, first.facts);
        exactly_one_event_answers_a_request(after, rest, request);
        if replied(rest, request) {
            let i = choose|i: int|
                0 <= i < rest.len() && (#[trigger] rest[i]).event.replies()
                    && rest[i].event.names() == Some(request);
            assert(events[i + 1] == rest[i]);
        }
        if replied(events, request) && !(first.event.replies() && first.event.names() == Some(
            request,
        )) {
            let i = choose|i: int|
                0 <= i < events.len() && (#[trigger] events[i]).event.replies()
                    && events[i].event.names() == Some(request);
            assert(rest[i - 1] == events[i]);
        }
    }
}

/// A request goes on waiting, unchanged, whatever other events are drained in
/// between: only its own reply settles it.
pub proof fn a_request_waits_for_its_own_reply(
    hub: HubModel,
    event: SessionEvent,
    facts: SessionFacts,
    request: u64,
)
    requires
        hub.pending.contains_key(request),
        !(event.replies() && event.names() == Some(request)),
    ensures
        hub_after(hub, event, facts).pending.contains_key(request),
        hub_after(hub, event, facts).pending[request] == hub.pending[request],
{
}

/// A session the caller abandoned stays marked so until its end, which says so.
pub proof fn an_abandoned_session_ends_as_abandoned(
    hub: HubModel,
    event: SessionEvent,
    facts: SessionFacts,
    told: EventModel,
)
    requires
        hub.sessions.contains_key(event.of_session()),
        hub.sessions[event.of_session()].abandoned,
        translated(hub, event, facts, told),
    ensures
        event is Terminal ==> told.abandoned,
        event !is Terminal ==> hub_after(hub, event, facts).sessions[event.of_session()].abandoned,
{
}

/// Progress leaves the request to its reply.
pub proof fn progress_settles_nothing(hub: HubModel, event: SessionEvent, facts: SessionFacts)
    requires
        !event.replies(),
    ensures
        hub_after(hub, event, facts).pending == hub.pending,
{
}

/// Draining a session's end retires it, and touches no other session.
pub proof fn an_end_retires_its_session(hub: HubModel, event: SessionEvent, facts: SessionFacts)
    requires
        event is Terminal,
    ensures
        !hub_after(hub, event, facts).sessions.contains_key(event.of_session()),
        forall|id: u64|
            id != event.of_session() ==> (#[trigger] hub_after(
                hub,
                event,
                facts,
            ).sessions.contains_key(id) <==> hub.sessions.contains_key(id)),
{
}

/// The live sessions are counted as the hub holds them: an event takes one off
/// the count exactly when it takes one off the hub.
pub proof fn live_sessions_follow_the_hub(
    live: LiveCounters,
    hub: HubModel,
    event: SessionEvent,
    facts: SessionFacts,
)
    requires
        hub.sessions.dom().finite(),
    ensures
        ({
            let ends = event is Terminal && hub.sessions.contains_key(event.of_session());
            let held = hub_after(hub, event, facts).sessions.dom();
            &&& held.len() == hub.sessions.dom().len() - if ends {
                1int
            } else {
                0int
            }
            &&& live_after(live, hub, event).sessions == if ends {
                previous_count(live.sessions)
            } else {
                live.sessions
            }
        }),
{
    let id = event.of_session();
    let held = hub_after(hub, event, facts).sessions.dom();
    if event is Terminal {
        assert(held =~= hub.sessions.dom().remove(id));
    } else {
        assert(held =~= hub.sessions.dom());
    }
}

/// Draining an event creates no batch and no error that was not live already:
/// the counts that are reported are the same while it waits and once it is
/// drained, whatever waits behind it.
pub proof fn draining_keeps_the_reported_counts(
    live: LiveCounters,
    hub: HubModel,
    event: SessionEvent,
    behind: Seq<&SessionEvent>,
)
    ensures
        ({
            let waiting = live.with_waiting(seq![&event] + behind);
            let drained = live_after(live, hub, event).with_waiting(behind);
            &&& drained.batches == waiting.batches
            &&& drained.errors == waiting.errors
        }),
    decreases behind.len(),
{
    let queue = seq![&event] + behind;
    if behind.len() == 0 {
        assert(queue.drop_last() =~= Seq::<&SessionEvent>::empty());
        assert(live.with_waiting(queue.drop_last()) == live);
        assert(queue.last() == &event);
    } else {
        draining_keeps_the_reported_counts(live, hub, event, behind.drop_last());
        assert(queue.drop_last() =~= seq![&event] + behind.drop_last());
        assert(queue.last() == behind.last());
    }
}

/// An event changes the session it belongs to and no other.
pub proof fn an_event_touches_its_session_only(
    hub: HubModel,
    event: SessionEvent,
    facts: SessionFacts,
    other: u64,
)
    requires
        other != event.of_session(),
        hub.sessions.contains_key(other),
    ensures
        hub_after(hub, event, facts).sessions.contains_key(other),
        hub_after(hub, event, facts).sessions[other] == hub.sessions[other],
{
}

/// A close leaves the session open exactly where the caller is still to decide,
/// or the commit or rollback it asked for failed; otherwise it ends it.
pub proof fn a_close_that_fails_to_resolve_leaves_the_session_open(
    hub: HubModel,
    event: SessionEvent,
    facts: SessionFacts,
    told: EventModel,
)
    requires
        event is SessionClosed,
        translated(hub, event, facts, told),
        hub.sessions.contains_key(event.of_session()),
    ensures
        told.session_still_open <==> told.close_outcome == ReldexCloseOutcome::DecisionRequired
            || told.close_outcome == ReldexCloseOutcome::CommitFailed || told.close_outcome
            == ReldexCloseOutcome::RollbackFailed,
        told.session_still_open ==> hub_after(hub, event, facts).sessions[event.of_session()]
            == hub.sessions[event.of_session()],
        !told.session_still_open ==> !hub_after(
            hub,
            event,
            facts,
        ).sessions[event.of_session()].usable(true),
{
}

/// An event leaves the ids of its hub in order, until they run out.
pub proof fn an_event_keeps_ids_in_order(hub: HubModel, event: SessionEvent, facts: SessionFacts)
    requires
        hub.ids_are_in_order(),
        session_of(hub, event) matches Some(session) ==> session.next_result < u64::MAX,
    ensures
        hub_after(hub, event, facts).ids_are_in_order(),
{
    let after = hub_after(hub, event, facts);
    assert forall|id: u64| #[trigger] after.pending.contains_key(id) implies id
        < after.next_request by {
        assert(hub.pending.contains_key(id));
    }
    assert forall|id: u64| #[trigger] after.sessions.contains_key(id) implies after.sessions[id].keys_below_next() by {
        assert(hub.sessions.contains_key(id));
        assert(hub.sessions[id].keys_below_next());
    }
}

/// An event names the session and the request it was reported for, and is a
/// reply unless it is progress, output, a change of the transaction or an end.
pub proof fn an_event_names_its_session_and_request(event: SessionEvent)
    ensures
        event matches SessionEvent::Opened { session, request, .. } ==> event.of_session()
            == session && event.names() == Some(request) && event.replies(),
        event matches SessionEvent::OpenFailed { session, request, .. } ==> event.of_session()
            == session && event.names() == Some(request) && event.replies(),
        event matches SessionEvent::Executed { session, request, .. } ==> event.of_session()
            == session && event.names() == Some(request) && event.replies(),
        event matches SessionEvent::Fetched { session, request, .. } ==> event.of_session()
            == session && event.names() == Some(request) && event.replies(),
        event matches SessionEvent::FetchedSegment { session, request, .. } ==> event.of_session()
            == session && event.names() == Some(request) && event.replies(),
        event matches SessionEvent::Completed { session, request, .. } ==> event.of_session()
            == session && event.names() == Some(request) && event.replies(),
        event matches SessionEvent::SessionClosed { session, request, .. } ==> event.of_session()
            == session && event.names() == Some(request) && event.replies(),
        event matches SessionEvent::ServerOutputConfigured { session, request, .. }
            ==> event.of_session() == session && event.names() == Some(request)
            && event.replies(),
        event matches SessionEvent::Executing { session, request, .. } ==> event.of_session()
            == session && event.names() == Some(request) && !event.replies(),
        event matches SessionEvent::ServerOutput { session, .. } ==> event.of_session() == session
            && event.names() is None && !event.replies(),
        event matches SessionEvent::TransactionStateChanged { session, .. } ==> event.of_session()
            == session && event.names() is None && !event.replies(),
        event matches SessionEvent::Terminal { session, .. } ==> event.of_session() == session
            && event.names() is None && !event.replies(),
        event matches SessionEvent::Unrecognized { session, request, reply } ==> event.of_session()
            == session && event.names() == request && event.replies() == reply,
        newer_kind(event) <==> event is Executing || event is TransactionStateChanged
            || event is FetchedSegment,
{
}

/// A failure reaches its caller as the core reported it, and nothing that
/// succeeded is told as a failure: an event has an error exactly where what it
/// reports failed, and it is that failure.
pub proof fn a_failure_is_told_as_it_was(
    hub: HubModel,
    event: SessionEvent,
    facts: SessionFacts,
    told: EventModel,
    delivered: ReldexEvent,
)
    requires
        translated(hub, event, facts, told),
        delivered.says(told),
    ensures
        event matches SessionEvent::Opened { .. } ==> delivered.error is None,
        event matches SessionEvent::OpenFailed { error, .. } ==> delivered.error is Some
            && delivered.error->0@ == error@,
        event matches SessionEvent::Executed { outcome, .. } ==> match outcome {
            Ok(_) => delivered.error is None,
            Err(error) => delivered.error is Some && delivered.error->0@ == error@,
        },
        event matches SessionEvent::Fetched { batch, .. } ==> match batch {
            Ok(_) => delivered.error is None,
            Err(error) => delivered.error is Some && delivered.error->0@ == error@,
        },
        event matches SessionEvent::FetchedSegment { segment, .. } ==> match segment {
            Ok(_) => delivered.error is None,
            Err(error) => delivered.error is Some && delivered.error->0@ == error@,
        },
        event matches SessionEvent::Completed { done, .. } ==> match done {
            Ok(_) => delivered.error is None,
            Err(error) => delivered.error is Some && delivered.error->0@ == error@,
        },
        event matches SessionEvent::SessionClosed { closed, .. } ==> match closed {
            Ok(_) => delivered.error is None,
            Err(CloseError::DecisionRequired { explanation }) => delivered.error is Some
                && delivered.error->0@.kind == ReldexErrorKind::Transaction
                && delivered.error->0@.message == explanation@
                && delivered.error->0@.native_code is None && delivered.error->0@.cause is None
                && delivered.error->0@.position is None && !delivered.error->0@.retryable,
            Err(CloseError::CommitFailed(error)) => delivered.error is Some
                && delivered.error->0@ == error@,
            Err(CloseError::RollbackFailed(error)) => delivered.error is Some
                && delivered.error->0@ == error@,
            Err(CloseError::Failed(error)) => delivered.error is Some && delivered.error->0@
                == error@,
        },
        event matches SessionEvent::ServerOutputConfigured { setting, .. } ==> match setting {
            Ok(_) => delivered.error is None,
            Err(error) => delivered.error is Some && delivered.error->0@ == error@,
        },
        event matches SessionEvent::ServerOutput { failure, .. } ==> match failure {
            None => delivered.error is None,
            Some(error) => delivered.error is Some && delivered.error->0@ == error@,
        },
        event matches SessionEvent::Terminal { cause, .. } ==> match cause {
            None => delivered.error is None,
            Some(error) => delivered.error is Some && delivered.error->0@ == error@,
        },
        event is Executing || event is TransactionStateChanged || event is Unrecognized
            ==> delivered.error is None,
        delivered.error is Some <==> event.has_error(),
        told.error is Some <==> event.has_error(),
{
}

/// An event is of the kind of what it reports, by the numbers callers know, and
/// belongs to the session that reported it. Only a reply carries a request, and
/// it is the one its caller passed.
pub proof fn an_event_says_what_it_is(
    hub: HubModel,
    event: SessionEvent,
    facts: SessionFacts,
    told: EventModel,
    delivered: ReldexEvent,
)
    requires
        translated(hub, event, facts, told),
        delivered.says(told),
    ensures
        delivered.kind == 1 <==> event is Opened || event is OpenFailed,
        delivered.kind == 2 <==> event is Executed,
        delivered.kind == 3 <==> event is Fetched,
        delivered.kind == 4 <==> (event matches SessionEvent::Completed { operation, .. }
            && operation is CloseResult),
        delivered.kind == 5 <==> event is SessionClosed,
        delivered.kind == 6 <==> (event matches SessionEvent::Completed { operation, .. }
            && operation !is CloseResult),
        delivered.kind == 7 <==> event is ServerOutputConfigured,
        delivered.kind == 8 <==> event is ServerOutput,
        delivered.kind == 9 <==> event is Terminal,
        delivered.kind == 10 <==> event is Executing,
        delivered.kind == 11 <==> event is TransactionStateChanged,
        delivered.kind == 12 <==> event is FetchedSegment,
        delivered.kind == 0 <==> event is Unrecognized,
        delivered.session == event.of_session(),
        event.replies() && event.names() is Some && hub.pending.contains_key(event.names()->0)
            ==> delivered.request == hub.pending[event.names()->0].caller,
        !event.replies() || event.names() is None || !hub.pending.contains_key(event.names()->0)
            ==> delivered.request == 0,
{
}

/// A statement that ran is told whole: the rows it changed, what sort of
/// statement it was, whether it committed, and how many columns its result has.
/// A result it opened is there under the key that is handed out, by the core's
/// id of it and with the columns that were described; where it opened none, no
/// key is.
pub proof fn an_executed_statement_is_told_whole(
    hub: HubModel,
    event: SessionEvent,
    facts: SessionFacts,
    told: EventModel,
    delivered: ReldexEvent,
    outcome: ExecuteOutcome,
)
    requires
        event matches SessionEvent::Executed { outcome: done, .. } && done == Ok::<_, DbError>(
            outcome,
        ),
        translated(hub, event, facts, told),
        delivered.says(told),
        hub.sessions.contains_key(event.of_session()),
    ensures
        delivered.has_rows_affected <==> outcome.rows_affected is Some,
        outcome.rows_affected matches Some(rows) ==> delivered.rows_affected == rows,
        delivered.committed_implicitly == outcome.committed_implicitly,
        outcome.columns@.len() <= usize::MAX ==> delivered.column_count == outcome.columns@.len(),
        delivered.statement_kind == 1 <==> outcome.statement_kind is Query,
        delivered.statement_kind == 2 <==> outcome.statement_kind is Dml,
        delivered.statement_kind == 3 <==> outcome.statement_kind is Ddl,
        delivered.statement_kind == 4 <==> outcome.statement_kind is PlSqlBlock,
        delivered.statement_kind == 5 <==> outcome.statement_kind is TransactionControl,
        delivered.statement_kind == 6 <==> outcome.statement_kind is SessionControl,
        delivered.statement_kind == 7 <==> outcome.statement_kind is Other,
        delivered.statement_kind == 0 <==> outcome.statement_kind is Unrecognized,
        delivered.session_state == 1,
        delivered.has_result <==> outcome.result is Some,
        ({
            let before = hub.sessions[event.of_session()];
            let after = hub_after(hub, event, facts).sessions[event.of_session()];
            &&& outcome.result matches Some(id) ==> {
                &&& after.results.contains_key(delivered.result)
                &&& after.results[delivered.result].id == id
                &&& after.results[delivered.result].columns == column_models(outcome.columns@)
                &&& forall|key: u64|
                    key != delivered.result ==> (#[trigger] after.results.contains_key(key)
                        <==> before.results.contains_key(key)) && after.results[key]
                        == before.results[key]
            }
            &&& outcome.result is None ==> after.results == before.results
        }),
{
}

/// A fetch hands out the rows the core fetched, described by the columns of the
/// result that the request named, under the caller's key of it. A fetch that
/// failed hands out none.
pub proof fn a_fetch_hands_out_its_rows(
    hub: HubModel,
    event: SessionEvent,
    facts: SessionFacts,
    told: EventModel,
    delivered: ReldexEvent,
    request: u64,
    batch: Result<FetchedBatch, DbError>,
)
    requires
        event matches SessionEvent::Fetched { request: asked, batch: fetched, .. } && asked
            == request && fetched == batch,
        translated(hub, event, facts, told),
        delivered.says(told),
    ensures
        delivered.batch is Some <==> batch is Ok,
        batch matches Ok(rows) ==> {
            &&& delivered.batch->0.table() == rows
            &&& delivered.row_count == rows.row_count
            &&& delivered.session_state == 1
            &&& hub.pending.contains_key(request) ==> (hub.pending[request].columns matches Some(
                columns,
            ) ==> delivered.batch->0.described() == columns)
        },
        batch is Err ==> delivered.row_count == 0,
        hub.pending.contains_key(request) ==> {
            &&& delivered.has_result <==> hub.pending[request].result is Some
            &&& hub.pending[request].result matches Some(key) ==> delivered.result == key
        },
{
}

/// A session that opened says which connection it has, how it can be interrupted
/// and how many warnings there were, and takes requests from then on, as soon as
/// the core hands it out. One that did not takes none.
pub proof fn an_opening_says_how_it_went(
    hub: HubModel,
    event: SessionEvent,
    facts: SessionFacts,
    told: EventModel,
    delivered: ReldexEvent,
)
    requires
        translated(hub, event, facts, told),
        delivered.says(told),
    ensures
        event matches SessionEvent::Opened { session, connection, cancel_kind, warnings, .. } ==> {
            &&& delivered.connection_id == connection
            &&& delivered.warning_count == warnings
            &&& delivered.cancel_kind == 1 <==> cancel_kind is Unsupported
            &&& delivered.cancel_kind == 2 <==> cancel_kind is PreArmedDeadline
            &&& delivered.cancel_kind == 3 <==> cancel_kind is Native
            &&& delivered.cancel_kind == 0 <==> cancel_kind is Unrecognized
            &&& delivered.session_state == 1
            &&& hub.sessions.contains_key(session) && hub.sessions[session].phase is Opening
                && facts.ready ==> hub_after(hub, event, facts).sessions[session].usable(false)
        },
        event matches SessionEvent::OpenFailed { session, error, .. } ==> {
            &&& delivered.session_state == 4 <==> error.kind is Cancelled
            &&& delivered.session_state == 3 <==> error.kind !is Cancelled
            &&& hub.sessions.contains_key(session) ==> !hub_after(
                hub,
                event,
                facts,
            ).sessions[session].usable(true)
        },
        event !is Opened ==> delivered.connection_id == 0 && delivered.cancel_kind == 0
            && delivered.warning_count == 0,
{
}

/// An operation that completed is named by its number. The release of a result
/// names the caller's key of it; the result is gone from its session then, and
/// no other is.
pub proof fn a_completed_operation_is_named(
    hub: HubModel,
    event: SessionEvent,
    facts: SessionFacts,
    told: EventModel,
    delivered: ReldexEvent,
    operation: CompletedOperation,
)
    requires
        event matches SessionEvent::Completed { operation: named, .. } && named == operation,
        translated(hub, event, facts, told),
        delivered.says(told),
    ensures
        delivered.completed_operation == 1 <==> operation is Commit,
        delivered.completed_operation == 2 <==> operation is Rollback,
        delivered.completed_operation == 3 <==> operation is Savepoint,
        delivered.completed_operation == 4 <==> operation is RollbackToSavepoint,
        delivered.completed_operation == 5 <==> operation is Ping,
        operation !is CloseResult ==> !delivered.has_result && hub_after(hub, event, facts).sessions
            == hub.sessions,
        operation is CloseResult && hub.pending.contains_key(event.names()->0) ==> {
            let key = hub.pending[event.names()->0].result;
            &&& delivered.has_result <==> key is Some
            &&& key matches Some(key) ==> delivered.result == key
            &&& hub.sessions.contains_key(event.of_session()) && key is Some ==> {
                let before = hub.sessions[event.of_session()];
                let after = hub_after(hub, event, facts).sessions[event.of_session()];
                &&& !after.results.contains_key(key->0)
                &&& forall|other: u64|
                    other != key->0 ==> (#[trigger] after.results.contains_key(other)
                        <==> before.results.contains_key(other)) && after.results[other]
                        == before.results[other]
                &&& after.phase == before.phase
                &&& after.connected == before.connected
            }
        },
{
    if hub.sessions.contains_key(event.of_session()) && operation !is CloseResult {
        assert(hub_after(hub, event, facts).sessions =~= hub.sessions);
    }
}

/// A close says how it ended, by the numbers callers know, and whether the
/// session is still open: only where the caller is still to decide, or what it
/// decided could not be done. A session that is not is closed, for good, with
/// every result it had.
pub proof fn a_close_says_how_it_ended(
    hub: HubModel,
    event: SessionEvent,
    facts: SessionFacts,
    told: EventModel,
    delivered: ReldexEvent,
    closed: Result<(), CloseError>,
)
    requires
        event matches SessionEvent::SessionClosed { closed: done, .. } && done == closed,
        translated(hub, event, facts, told),
        delivered.says(told),
    ensures
        delivered.close_outcome == 1 <==> closed is Ok,
        delivered.close_outcome == 2 <==> (closed matches Err(error) && error is DecisionRequired),
        delivered.close_outcome == 3 <==> (closed matches Err(error) && error is CommitFailed),
        delivered.close_outcome == 4 <==> (closed matches Err(error) && error is RollbackFailed),
        delivered.close_outcome == 5 <==> (closed matches Err(error) && error is Failed),
        delivered.session_still_open <==> (closed matches Err(error) && error !is Failed),
        !delivered.session_still_open ==> delivered.session_state == 4,
        hub.sessions.contains_key(event.of_session()) ==> {
            let before = hub.sessions[event.of_session()];
            let after = hub_after(hub, event, facts).sessions[event.of_session()];
            &&& hub_after(hub, event, facts).sessions.contains_key(event.of_session())
            &&& delivered.session_still_open ==> after == before
            &&& !delivered.session_still_open ==> {
                &&& after.phase is Closed
                &&& !after.connected
                &&& after.caller_ended
                &&& after.results == Map::<u64, ResultModel>::empty()
                &&& after.abandoned == before.abandoned
            }
        },
{
}

/// Server output arrives line by line as it was printed, with how much of it was
/// lost or unreadable. A change of the collection says what is in force.
pub proof fn server_output_arrives_as_printed(
    hub: HubModel,
    event: SessionEvent,
    facts: SessionFacts,
    told: EventModel,
    delivered: ReldexEvent,
)
    requires
        translated(hub, event, facts, told),
        delivered.says(told),
    ensures
        event matches SessionEvent::ServerOutput { lines, dropped, invalid_utf8_lines, .. } ==> {
            &&& delivered.server_output_dropped == dropped
            &&& delivered.server_output_invalid_utf8_lines == invalid_utf8_lines
            &&& delivered.server_output_lines is Some <==> lines@.len() > 0
            &&& delivered.server_output_lines matches Some(shown) ==> {
                &&& shown@.len() == lines@.len()
                &&& forall|i: int| 0 <= i < lines@.len() ==> #[trigger] shown@[i] == lines@[i]@
            }
        },
        event !is ServerOutput ==> delivered.server_output_lines is None
            && delivered.server_output_invalid_utf8_lines == 0,
        event matches SessionEvent::Terminal { .. } ==> delivered.server_output_dropped
            == facts.dropped_lines,
        event !is ServerOutput && event !is Terminal ==> delivered.server_output_dropped == 0,
        event matches SessionEvent::ServerOutputConfigured { setting: Ok(setting), .. } ==> {
            &&& delivered.server_output_mode == 1 <==> setting is Disabled
            &&& delivered.server_output_mode == 2 <==> setting is EnabledUnlimited
            &&& delivered.server_output_mode == 3 <==> setting is EnabledBytes
            &&& setting matches ServerOutputSetting::EnabledBytes(bytes)
                ==> delivered.server_output_buffer_bytes == bytes
            &&& setting !is EnabledBytes ==> delivered.server_output_buffer_bytes == 0
            &&& delivered.session_state == 1
        },
        event matches SessionEvent::ServerOutputConfigured { setting: Err(_), .. }
            ==> delivered.server_output_mode == 0,
{
    if let SessionEvent::ServerOutput { lines, .. } = event {
        assert(texts(lines@).len() == lines@.len());
    }
}

/// The end of a session says how it ended, whether a transaction may be lost, and
/// whether the caller abandoned it. Progress names the request that started and
/// the limit it runs under. A change of the transaction says which way.
pub proof fn a_notification_says_what_happened(
    hub: HubModel,
    event: SessionEvent,
    facts: SessionFacts,
    told: EventModel,
    delivered: ReldexEvent,
)
    requires
        translated(hub, event, facts, told),
        delivered.says(told),
    ensures
        event matches SessionEvent::Terminal {
            session,
            lifecycle,
            transaction_possibly_lost,
            ..
        } ==> {
            &&& delivered.transaction_possibly_lost == transaction_possibly_lost
            &&& delivered.session_state == 1 <==> lifecycle is Usable
            &&& delivered.session_state == 2 <==> lifecycle is NeedsValidation
            &&& delivered.session_state == 3 <==> lifecycle is Lost
            &&& delivered.session_state == 4 <==> lifecycle is Closed
            &&& delivered.abandoned <==> hub.sessions.contains_key(session)
                && hub.sessions[session].abandoned
        },
        event !is Terminal ==> !delivered.transaction_possibly_lost && !delivered.abandoned,
        event matches SessionEvent::Executing { request, deadline, .. } ==> {
            &&& delivered.has_deadline <==> deadline is Some
            &&& deadline matches Some(limit) ==> if limit <= 0xffff_ffff_ffff_ffff {
                delivered.deadline_ms == limit
            } else {
                delivered.deadline_ms == 0xffff_ffff_ffff_ffff
            }
            &&& hub.pending.contains_key(request) ==> delivered.executing_request
                == hub.pending[request].caller
        },
        event !is Executing ==> delivered.executing_request == 0 && !delivered.has_deadline,
        event matches SessionEvent::TransactionStateChanged { possibly_active, .. }
            ==> delivered.transaction_possibly_active == possibly_active,
        event !is TransactionStateChanged ==> !delivered.transaction_possibly_active,
{
}

/// What belongs to one kind of event is in no other: rows come with a fetch
/// alone, changed rows and a committed statement with an execution alone, and so
/// on.
pub proof fn each_event_carries_its_own_only(
    hub: HubModel,
    event: SessionEvent,
    facts: SessionFacts,
    told: EventModel,
    delivered: ReldexEvent,
)
    requires
        translated(hub, event, facts, told),
        delivered.says(told),
    ensures
        delivered.batch is Some <==> (event matches SessionEvent::Fetched { batch, .. }
            && batch is Ok),
        delivered.batch is Some <==> event.has_batch(),
        event !is Executed ==> !delivered.has_rows_affected && !delivered.committed_implicitly
            && delivered.column_count == 0 && delivered.statement_kind == 0,
        event matches SessionEvent::Executed { outcome: Err(_), .. }
            ==> !delivered.has_rows_affected && !delivered.has_result
            && !delivered.committed_implicitly && delivered.column_count == 0,
        event !is Fetched && event !is FetchedSegment ==> delivered.row_count == 0,
        event matches SessionEvent::FetchedSegment { segment, .. } ==> match segment {
            Ok(rows) => delivered.row_count == rows,
            Err(_) => delivered.row_count == 0,
        },
        event matches SessionEvent::FetchedSegment { session, result, .. } ==> (
        delivered.has_result ==> hub.sessions.contains_key(session)
            && hub.sessions[session].results.contains_key(delivered.result)
            && hub.sessions[session].results[delivered.result].id == result),
        event !is SessionClosed ==> delivered.close_outcome == 0 && !delivered.session_still_open,
        event !is Completed ==> delivered.completed_operation == 0,
        event !is ServerOutputConfigured ==> delivered.server_output_mode == 0
            && delivered.server_output_buffer_bytes == 0,
        event !is Executed && event !is Fetched && event !is FetchedSegment && event !is Completed
            ==> !delivered.has_result,
{
}

/// An event that reports a failure, or that answers nothing, says how its
/// session is when it is taken: as its handle says while the hub holds one,
/// closed once it ended. A request that succeeded left its session usable.
pub proof fn an_event_says_how_its_session_is(
    hub: HubModel,
    event: SessionEvent,
    facts: SessionFacts,
    told: EventModel,
    delivered: ReldexEvent,
)
    requires
        translated(hub, event, facts, told),
        delivered.says(told),
        hub.sessions.contains_key(event.of_session()),
        event !is OpenFailed,
        event !is Terminal,
        event !is Unrecognized,
    ensures
        event.replies() && !event.has_error() && event !is SessionClosed
            ==> delivered.session_state == 1,
        (event.has_error() || !event.replies()) && (event !is SessionClosed
            || delivered.session_still_open) ==> {
            let session = hub.sessions[event.of_session()];
            &&& session.connected ==> {
                &&& delivered.session_state == 1 <==> facts.lifecycle is Usable
                &&& delivered.session_state == 2 <==> facts.lifecycle is NeedsValidation
                &&& delivered.session_state == 3 <==> facts.lifecycle is Lost
                &&& delivered.session_state == 4 <==> facts.lifecycle is Closed
            }
            &&& !session.connected && session.phase is Closed ==> delivered.session_state == 4
            &&& !session.connected && session.phase !is Closed ==> delivered.session_state == 0
        },
{
}

/// A session is changed by what it reports and by nothing else: a fetch, output,
/// progress, a failed statement or a statement without a result leave it as it
/// was, and no event but its end takes it off the hub or puts one on.
pub proof fn a_session_changes_only_by_what_it_reports(
    hub: HubModel,
    event: SessionEvent,
    facts: SessionFacts,
)
    ensures
        event is Fetched || event is FetchedSegment || event is ServerOutputConfigured
            || event is Executing || event is ServerOutput || event is TransactionStateChanged
            || event is Unrecognized ==> hub_after(hub, event, facts).sessions == hub.sessions,
        (event matches SessionEvent::Executed { outcome, .. } && (outcome is Err || (outcome->Ok_0).result
            is None)) ==> hub_after(hub, event, facts).sessions == hub.sessions,
        event !is Terminal ==> hub_after(hub, event, facts).sessions.dom() == hub.sessions.dom(),
        event is Terminal ==> hub_after(hub, event, facts).sessions == hub.sessions.remove(
            event.of_session(),
        ),
        hub_after(hub, event, facts).next_request == hub.next_request,
        event.replies() && event.names() is Some ==> hub_after(hub, event, facts).pending
            == hub.pending.remove(event.names()->0),
        !(event.replies() && event.names() is Some) ==> hub_after(hub, event, facts).pending
            == hub.pending,
{
    let after = hub_after(hub, event, facts);
    if event is Terminal && !hub.sessions.contains_key(event.of_session()) {
        assert(after.sessions =~= hub.sessions.remove(event.of_session()));
    }
    if event !is Terminal {
        assert(after.sessions.dom() =~= hub.sessions.dom());
    }
}

/// The translation does what is said of it here: what it tells, what it leaves of
/// the hub, and the objects it counts.
pub proof fn the_translation_is_what_is_told(
    live: &mut LiveCounters,
    hub: &mut ReldexHub,
    event: SessionEvent,
    facts: SessionFacts,
    told: QueuedEvent,
)
    requires
        call_ensures(translate, (live, hub, event, facts), told),
    ensures
        translated(old(hub)@, event, facts, told@),
        final(hub)@.sessions == hub_after(old(hub)@, event, facts).sessions,
        final(hub)@.pending == hub_after(old(hub)@, event, facts).pending,
        final(hub)@.next_request == old(hub)@.next_request,
        final(live).batches == if told.batch is Some {
            next_count(old(live).batches)
        } else {
            old(live).batches
        },
        final(live).errors == if told.error is Some {
            next_count(old(live).errors)
        } else {
            old(live).errors
        },
        final(live).misc_objects == if told.server_output_lines is Some {
            next_count(old(live).misc_objects)
        } else {
            old(live).misc_objects
        },
        final(live).hubs == old(live).hubs,
        final(live).arenas == old(live).arenas,
{
}

/// A caller is handed what the translation told, each field as it was.
pub proof fn what_is_told_is_handed_out(queued: QueuedEvent, valid: u32, delivered: ReldexEvent)
    requires
        call_ensures(QueuedEvent::into_c, (queued, valid), delivered),
    ensures
        delivered.struct_size == valid,
        delivered.says(queued@),
        delivered.error is Some <==> queued.error is Some,
        delivered.error matches Some(error) ==> error@ == queued.error->0@,
        delivered.batch is Some <==> queued.batch is Some,
        delivered.batch matches Some(batch) ==> batch.table() == queued.batch->0.table(),
        delivered.session == queued.session,
        delivered.request == queued.request,
        delivered.row_count == queued.row_count,
        delivered.has_result <==> queued.result is Some,
        queued.result matches Some(result) ==> delivered.result == result,
        delivered.has_rows_affected <==> queued.rows_affected is Some,
        queued.rows_affected matches Some(rows) ==> delivered.rows_affected == rows,
        delivered.connection_id == queued.connection_id,
        delivered.column_count == queued.column_count,
        delivered.warning_count == queued.warning_count,
        delivered.committed_implicitly == queued.committed_implicitly,
        delivered.session_still_open == queued.session_still_open,
        delivered.transaction_possibly_lost == queued.transaction_possibly_lost,
        delivered.transaction_possibly_active == queued.transaction_possibly_active,
        delivered.abandoned == queued.abandoned,
        delivered.executing_request == queued.executing_request,
{
}

/// What an event is told by its contents: which kinds answer a request, which
/// carry rows, which carry a failure, and which a caller of an earlier version
/// does not know.
pub proof fn an_event_is_known_by_its_contents(
    event: SessionEvent,
    reply: bool,
    rows: bool,
    failure: bool,
    newer: bool,
)
    requires
        call_ensures(SessionEvent::is_reply, (&event,), reply),
        call_ensures(SessionEvent::carries_batch, (&event,), rows),
        call_ensures(SessionEvent::carries_error, (&event,), failure),
        call_ensures(introduced_in_3_2, (&event,), newer),
    ensures
        event is Executing || event is ServerOutput || event is TransactionStateChanged
            || event is Terminal ==> !reply,
        event is Opened || event is OpenFailed || event is Executed || event is Fetched
            || event is FetchedSegment || event is Completed || event is SessionClosed
            || event is ServerOutputConfigured ==> reply,
        rows ==> event is Fetched,
        rows && failure ==> false,
        event matches SessionEvent::Fetched { batch, .. } ==> (rows <==> batch is Ok) && (failure
            <==> batch is Err),
        event matches SessionEvent::Executed { outcome, .. } ==> (failure <==> outcome is Err),
        event matches SessionEvent::FetchedSegment { segment, .. } ==> (failure <==> segment is Err),
        event matches SessionEvent::Completed { done, .. } ==> (failure <==> done is Err),
        event matches SessionEvent::SessionClosed { closed, .. } ==> (failure <==> closed is Err),
        event matches SessionEvent::ServerOutputConfigured { setting, .. } ==> (failure
            <==> setting is Err),
        event is OpenFailed ==> failure,
        event is Opened || event is Executing || event is TransactionStateChanged ==> !failure,
        newer <==> event is Executing || event is TransactionStateChanged
            || event is FetchedSegment,
{
}

/// An event is matched with the request it names and with no other: a reply
/// settles it, anything else leaves it waiting.
pub proof fn a_reply_settles_its_request_alone(
    hub: &mut ReldexHub,
    event: SessionEvent,
    pending: Option<Pending>,
    other: u64,
)
    requires
        call_ensures(ReldexHub::pending_for, (hub, &event), pending),
    ensures
        pending is Some <==> event.names() is Some && old(hub)@.pending.contains_key(
            event.names()->0,
        ),
        pending matches Some(pending) ==> {
            &&& pending@.caller == old(hub)@.pending[event.names()->0].caller
            &&& event.replies() ==> pending@ == old(hub)@.pending[event.names()->0]
        },
        event.names() != Some(other) ==> {
            &&& final(hub)@.pending.contains_key(other) <==> old(hub)@.pending.contains_key(other)
            &&& final(hub)@.pending.contains_key(other) ==> final(hub)@.pending[other] == old(
                hub,
            )@.pending[other]
        },
        event.names() matches Some(request) ==> {
            &&& event.replies() ==> !final(hub)@.pending.contains_key(request)
            &&& !event.replies() ==> final(hub)@.pending == old(hub)@.pending
        },
        final(hub)@.sessions == old(hub)@.sessions,
{
}

/// The descriptions of results that a caller may still ask about outlive a session
/// that ended by itself; a session whose caller ended it leaves none, and no other
/// event adds or takes any.
pub proof fn descriptions_outlive_a_session_that_ended_by_itself(
    live: &mut LiveCounters,
    hub: &mut ReldexHub,
    event: SessionEvent,
    facts: SessionFacts,
    told: QueuedEvent,
    key: u64,
)
    requires
        call_ensures(translate, (live, hub, event, facts), told),
    ensures
        event !is Terminal ==> final(hub)@.orphaned == old(hub)@.orphaned,
        old(hub)@.orphaned.len() <= final(hub)@.orphaned.len(),
        forall|i: int|
            0 <= i < old(hub)@.orphaned.len() ==> #[trigger] final(hub)@.orphaned[i] == old(
                hub,
            )@.orphaned[i],
        event is Terminal && old(hub)@.sessions.contains_key(event.of_session()) ==> {
            let session = old(hub)@.sessions[event.of_session()];
            &&& session.caller_ended ==> final(hub)@.orphaned == old(hub)@.orphaned
            &&& !session.caller_ended ==> final(hub)@.orphaned.len() == old(hub)@.orphaned.len()
                + session.results.dom().len()
            &&& !session.caller_ended && session.results.contains_key(key) ==> exists|i: int|
                0 <= i < final(hub)@.orphaned.len() && #[trigger] final(hub)@.orphaned[i]
                    == session.results[key].columns
        },
{
    let session = old(hub)@.sessions[event.of_session()];
    if event is Terminal && old(hub)@.sessions.contains_key(event.of_session())
        && !session.caller_ended {
        let more = choose|more: Seq<Arc<ResultColumns>>| #[trigger]
            describes_results(more, session.results) && final(hub)@.orphaned == old(hub)@.orphaned
                + descriptions(more);
        if session.results.contains_key(key) {
            let index = choose|i: int|
                0 <= i < more.len() && (#[trigger] more[i])@ == session.results[key].columns;
            assert(final(hub)@.orphaned[old(hub)@.orphaned.len() + index]
                == session.results[key].columns);
        }
    }
}

/// What an event leaves of its session: a result that was opened is there under
/// the key that is told, with the columns that came with it; one that was closed
/// is gone, and no other; a session that opened is open, one that failed to is
/// closed. No other session changes.
pub proof fn a_session_is_left_as_its_event_says(
    live: &mut LiveCounters,
    hub: &mut ReldexHub,
    event: SessionEvent,
    facts: SessionFacts,
    told: QueuedEvent,
    other: u64,
)
    requires
        call_ensures(translate, (live, hub, event, facts), told),
        old(hub)@.sessions.contains_key(event.of_session()),
    ensures
        other != event.of_session() ==> {
            &&& final(hub)@.sessions.contains_key(other) <==> old(hub)@.sessions.contains_key(other)
            &&& final(hub)@.sessions.contains_key(other) ==> final(hub)@.sessions[other] == old(
                hub,
            )@.sessions[other]
        },
        event matches SessionEvent::Executed { outcome, .. } ==> (outcome matches Ok(outcome) ==> (
        outcome.result matches Some(opened) ==> {
            let then = final(hub)@.sessions[event.of_session()].results;
            &&& told.result is Some
            &&& then.contains_key(told.result->0)
            &&& then[told.result->0].id == opened
            &&& then[told.result->0].columns.len() == outcome.columns@.len()
            &&& forall|i: int|
                0 <= i < outcome.columns@.len() ==> #[trigger] then[told.result->0].columns[i]
                    == outcome.columns@[i]@
        })),
        event matches SessionEvent::Completed { operation, .. } ==> (operation
            == CompletedOperation::CloseResult ==> {
            let before = old(hub)@.sessions[event.of_session()].results;
            let then = final(hub)@.sessions[event.of_session()].results;
            &&& told.result matches Some(closed) ==> !then.contains_key(closed)
            &&& told.result != Some(other) ==> {
                &&& then.contains_key(other) <==> before.contains_key(other)
                &&& then.contains_key(other) ==> then[other] == before[other]
            }
        }),
        event is Opened && facts.ready ==> final(hub)@.sessions[event.of_session()].phase !is Opening,
        event is Opened && facts.ready && old(hub)@.sessions[event.of_session()].phase is Opening
            ==> {
            &&& final(hub)@.sessions[event.of_session()].phase is Open
            &&& final(hub)@.sessions[event.of_session()].connected
        },
        event is OpenFailed ==> final(hub)@.sessions[event.of_session()].phase is Closed,
        event is Terminal ==> !final(hub)@.sessions.contains_key(event.of_session()),
{
    if let SessionEvent::Executed { outcome: Ok(outcome), .. } = event {
        if outcome.result is Some {
            assert(told@.result == told.result);
        }
    }
}

} // verus!
