//! Events: replies to requests, progress and notifications, as one flat shape
//! that a caller switches on by `kind`.

use vstd::prelude::*;

use crate::batch::{ColumnModel, FetchedBatch, ReldexBatch};
use crate::counters::{next_count, Kind, LiveCounters};
use crate::error::{DbError, ErrorModel, ReldexError, ReldexSessionState};
use crate::session::{CloseError, ExecuteOutcome, ReldexCancelKind, ServerOutputSetting,
    StatementKind};
use crate::status::Boundary;
use crate::strings::{OwnedStr, ReldexStr};

verus! {

/// The lines of one `ServerOutput` event, owned by the caller from the moment
/// the event is drained.
#[derive(Debug)]
pub struct ReldexServerOutputLines {
    lines: Vec<OwnedStr>,
}

impl View for ReldexServerOutputLines {
    type V = Seq<Seq<char>>;

    closed spec fn view(&self) -> Seq<Seq<char>> {
        self.lines@.map_values(|line: OwnedStr| line@)
    }
}

/// What lines say.
pub open spec fn texts(lines: Seq<String>) -> Seq<Seq<char>> {
    lines.map_values(|line: String| line@)
}

impl ReldexServerOutputLines {
    /// Takes lines in, counting the object that holds them.
    pub fn new(live: &mut LiveCounters, lines: Vec<String>) -> (owned: Self)
        ensures
            owned@ == texts(lines@),
            *final(live) == old(live).plus(Kind::ServerOutputLines),
    {
        live.created(Kind::ServerOutputLines);
        let mut kept: Vec<OwnedStr> = Vec::new();
        let mut index: usize = 0;
        while index < lines.len()
            invariant
                index <= lines@.len(),
                kept@.len() == index,
                forall|i: int| 0 <= i < index ==> (#[trigger] kept@[i])@ == lines@[i]@,
            decreases lines@.len() - index,
        {
            kept.push(OwnedStr::new(lines[index].clone()));
            index += 1;
        }
        let owned = ReldexServerOutputLines { lines: kept };
        assert(owned@ =~= texts(lines@));
        owned
    }
}

/// How many lines there are.
pub fn reldex_server_output_lines_count(
    boundary: &mut Boundary,
    lines: Option<&ReldexServerOutputLines>,
) -> (count: usize)
    ensures
        old(boundary)@.in_waker ==> count == 0 && final(boundary)@ == old(boundary)@.refused(),
        !old(boundary)@.in_waker ==> {
            &&& count == match lines {
                Some(lines) => lines@.len(),
                None => 0,
            }
            &&& final(boundary)@ == old(boundary)@
        },
{
    if boundary.refuse_reentrant() {
        return 0;
    }
    match lines {
        Some(lines) => lines.lines.len(),
        None => 0,
    }
}

/// Line `index`, or the empty string where there is none.
pub fn reldex_server_output_lines_get<'a>(
    boundary: &mut Boundary,
    lines: Option<&'a ReldexServerOutputLines>,
    index: usize,
) -> (line: ReldexStr<'a>)
    ensures
        old(boundary)@.in_waker ==> {
            &&& line.carries(Seq::empty())
            &&& final(boundary)@ == old(boundary)@.refused()
        },
        !old(boundary)@.in_waker ==> {
            &&& line.carries(
                match lines {
                    Some(lines) => if index < lines@.len() {
                        lines@[index as int]
                    } else {
                        Seq::empty()
                    },
                    None => Seq::empty(),
                },
            )
            &&& final(boundary)@ == old(boundary)@
        },
{
    if boundary.refuse_reentrant() {
        return ReldexStr::empty();
    }
    match lines {
        Some(lines) => if index < lines.lines.len() {
            lines.lines[index].as_reldex_str()
        } else {
            ReldexStr::empty()
        },
        None => ReldexStr::empty(),
    }
}

/// Releases the lines of a drained event. Nothing to release is no failure; a
/// refused call leaves them with the caller.
pub fn reldex_server_output_lines_release(
    boundary: &mut Boundary,
    lines: Option<ReldexServerOutputLines>,
) -> (kept: Option<ReldexServerOutputLines>)
    ensures
        old(boundary)@.in_waker ==> kept == lines && final(boundary)@ == old(boundary)@.refused(),
        !old(boundary)@.in_waker ==> kept is None && final(boundary)@ == if lines is Some {
            old(boundary)@.minus(Kind::ServerOutputLines)
        } else {
            old(boundary)@
        },
{
    if boundary.refuse_reentrant() {
        return lines;
    }
    if lines.is_some() {
        boundary.live.destroyed(Kind::ServerOutputLines);
    }
    None
}

/// Which request an event is the reply to, or what it notifies of.
///
/// `0` is reserved for a kind the caller's header predates. An event with an
/// error is its request's failure, still delivered under its own kind.
#[derive(Debug, Clone, Copy, PartialEq, Eq, Structural)]
pub enum ReldexEventKind {
    /// A kind this header does not know.
    Unknown,
    /// Reply to `reldex_hub_open_session`.
    Opened,
    /// Reply to `reldex_session_execute`.
    Executed,
    /// Reply to `reldex_session_fetch`, with a batch on success.
    Fetched,
    /// Reply to `reldex_session_close_result`.
    ResultClosed,
    /// Reply to `reldex_session_close`. A close can fail and leave the session
    /// open: read `close_outcome`.
    SessionClosed,
    /// Reply to a commit, a rollback, a savepoint, a rollback to a savepoint or
    /// a ping: read `completed_operation`.
    Completed,
    /// Reply to `reldex_session_set_server_output`, with the setting actually
    /// in force.
    ServerOutputConfigured,
    /// Unsolicited: lines the server produced out of band.
    ServerOutput,
    /// Unsolicited, once for each session: it ended.
    Terminal,
    /// Progress: a statement has left the queue.
    Executing,
    /// Unsolicited: whether a transaction may be open has changed.
    TransactionState,
    /// A result store's segment fetch was answered.
    FetchedSegment,
}

/// Which operation a `Completed` event answers.
///
/// `0` is reserved for an operation the caller's header predates.
#[derive(Debug, Clone, Copy, PartialEq, Eq, Structural)]
pub enum ReldexCompletedOperation {
    /// An operation this header does not know.
    Unknown,
    /// `reldex_session_commit`.
    Commit,
    /// `reldex_session_rollback`.
    Rollback,
    /// `reldex_session_savepoint`.
    Savepoint,
    /// `reldex_session_rollback_to_savepoint`.
    RollbackToSavepoint,
    /// `reldex_session_ping`.
    Ping,
}

/// Whether server output is on for a session, and with what buffer.
///
/// `0` is reserved for a mode the caller's header predates.
#[derive(Debug, Clone, Copy, PartialEq, Eq, Structural)]
pub enum ReldexServerOutputMode {
    /// A mode this header does not know.
    Unknown,
    /// The server does not buffer output for this session.
    Disabled,
    /// The server buffers output with no limit other than its own memory.
    EnabledUnlimited,
    /// The server buffers output up to a number of bytes.
    EnabledBytes,
}

/// What kind of statement the server ran, as far as the driver could tell.
///
/// `0` is reserved for a kind the caller's header predates.
#[derive(Debug, Clone, Copy, PartialEq, Eq, Structural)]
pub enum ReldexStatementKind {
    /// A kind this header does not know.
    Unknown,
    /// A query that returns rows.
    Query,
    /// Data manipulation.
    Dml,
    /// Data definition.
    Ddl,
    /// An anonymous block or a call into stored code.
    PlSqlBlock,
    /// Transaction control submitted as text.
    TransactionControl,
    /// Session control.
    SessionControl,
    /// Something else, or the driver could not classify it.
    Other,
}

impl ReldexStatementKind {
    /// The stable kind of a reported one.
    pub open spec fn of(kind: StatementKind) -> Self {
        match kind {
            StatementKind::Query => ReldexStatementKind::Query,
            StatementKind::Dml => ReldexStatementKind::Dml,
            StatementKind::Ddl => ReldexStatementKind::Ddl,
            StatementKind::PlSqlBlock => ReldexStatementKind::PlSqlBlock,
            StatementKind::TransactionControl => ReldexStatementKind::TransactionControl,
            StatementKind::SessionControl => ReldexStatementKind::SessionControl,
            StatementKind::Other => ReldexStatementKind::Other,
            StatementKind::Unrecognized => ReldexStatementKind::Unknown,
        }
    }

    /// The stable kind of a reported one.
    pub fn from_statement_kind(kind: StatementKind) -> (stable: Self)
        ensures
            stable == Self::of(kind),
    {
        match kind {
            StatementKind::Query => ReldexStatementKind::Query,
            StatementKind::Dml => ReldexStatementKind::Dml,
            StatementKind::Ddl => ReldexStatementKind::Ddl,
            StatementKind::PlSqlBlock => ReldexStatementKind::PlSqlBlock,
            StatementKind::TransactionControl => ReldexStatementKind::TransactionControl,
            StatementKind::SessionControl => ReldexStatementKind::SessionControl,
            StatementKind::Other => ReldexStatementKind::Other,
            StatementKind::Unrecognized => ReldexStatementKind::Unknown,
        }
    }
}

/// How a session close ended. Only `Closed` and `Failed` end the session; the
/// others leave it open and usable, so that the user can be asked.
#[derive(Debug, Clone, Copy, PartialEq, Eq, Structural)]
pub enum ReldexCloseOutcome {
    /// An outcome this header does not know.
    Unknown,
    /// The session is closed.
    Closed,
    /// A transaction may be open and no disposition was given. Still open.
    DecisionRequired,
    /// The requested commit failed, so the transaction is unchanged. Still
    /// open.
    CommitFailed,
    /// The requested rollback failed, so the transaction is unchanged. Still
    /// open.
    RollbackFailed,
    /// The transaction was resolved, or there was none, but closing failed, or
    /// the session was already lost. The session is closed either way.
    Failed,
}

/// Rows that an event hands to the caller.
pub struct BatchModel {
    pub table: FetchedBatch,
    pub columns: Seq<ColumnModel>,
}

/// What an event says.
pub struct EventModel {
    pub kind: ReldexEventKind,
    pub session: u64,
    pub request: u64,
    pub session_state: ReldexSessionState,
    pub error: Option<ErrorModel>,
    pub batch: Option<BatchModel>,
    pub result: Option<u64>,
    pub rows_affected: Option<u64>,
    pub connection_id: u64,
    pub row_count: usize,
    pub statement_kind: ReldexStatementKind,
    pub cancel_kind: ReldexCancelKind,
    pub close_outcome: ReldexCloseOutcome,
    pub column_count: usize,
    pub warning_count: usize,
    pub committed_implicitly: bool,
    pub session_still_open: bool,
    pub completed_operation: ReldexCompletedOperation,
    pub server_output_mode: ReldexServerOutputMode,
    pub server_output_buffer_bytes: u64,
    pub server_output_dropped: u32,
    pub server_output_invalid_utf8_lines: u32,
    pub server_output_lines: Option<Seq<Seq<char>>>,
    pub transaction_possibly_lost: bool,
    pub deadline_ms: Option<u64>,
    pub executing_request: u64,
    pub transaction_possibly_active: bool,
    pub abandoned: bool,
}

impl EventModel {
    /// An event that says nothing but what it is about.
    pub open spec fn blank(kind: ReldexEventKind, session: u64, request: u64) -> Self {
        EventModel {
            kind,
            session,
            request,
            session_state: ReldexSessionState::Unknown,
            error: None,
            batch: None,
            result: None,
            rows_affected: None,
            connection_id: 0,
            row_count: 0,
            statement_kind: ReldexStatementKind::Unknown,
            cancel_kind: ReldexCancelKind::Unknown,
            close_outcome: ReldexCloseOutcome::Unknown,
            column_count: 0,
            warning_count: 0,
            committed_implicitly: false,
            session_still_open: false,
            completed_operation: ReldexCompletedOperation::Unknown,
            server_output_mode: ReldexServerOutputMode::Unknown,
            server_output_buffer_bytes: 0,
            server_output_dropped: 0,
            server_output_invalid_utf8_lines: 0,
            server_output_lines: None,
            transaction_possibly_lost: false,
            deadline_ms: None,
            executing_request: 0,
            transaction_possibly_active: false,
            abandoned: false,
        }
    }
}

/// An event while it is still the library's: the owning form of
/// [`ReldexEvent`].
pub struct QueuedEvent {
    pub kind: ReldexEventKind,
    pub session: u64,
    pub request: u64,
    pub session_state: ReldexSessionState,
    pub error: Option<ReldexError>,
    pub batch: Option<ReldexBatch>,
    pub result: Option<u64>,
    pub rows_affected: Option<u64>,
    pub connection_id: u64,
    pub row_count: usize,
    pub statement_kind: ReldexStatementKind,
    pub cancel_kind: ReldexCancelKind,
    pub close_outcome: ReldexCloseOutcome,
    pub column_count: usize,
    pub warning_count: usize,
    pub committed_implicitly: bool,
    pub session_still_open: bool,
    pub completed_operation: ReldexCompletedOperation,
    pub server_output_mode: ReldexServerOutputMode,
    pub server_output_buffer_bytes: u64,
    pub server_output_dropped: u32,
    pub server_output_invalid_utf8_lines: u32,
    pub server_output_lines: Option<ReldexServerOutputLines>,
    pub transaction_possibly_lost: bool,
    pub deadline_ms: Option<u64>,
    pub executing_request: u64,
    pub transaction_possibly_active: bool,
    pub abandoned: bool,
}

impl View for QueuedEvent {
    type V = EventModel;

    open spec fn view(&self) -> EventModel {
        EventModel {
            kind: self.kind,
            session: self.session,
            request: self.request,
            session_state: self.session_state,
            error: match self.error {
                Some(error) => Some(error@),
                None => None,
            },
            batch: match self.batch {
                Some(batch) => Some(
                    BatchModel { table: batch.table(), columns: batch.described() },
                ),
                None => None,
            },
            result: self.result,
            rows_affected: self.rows_affected,
            connection_id: self.connection_id,
            row_count: self.row_count,
            statement_kind: self.statement_kind,
            cancel_kind: self.cancel_kind,
            close_outcome: self.close_outcome,
            column_count: self.column_count,
            warning_count: self.warning_count,
            committed_implicitly: self.committed_implicitly,
            session_still_open: self.session_still_open,
            completed_operation: self.completed_operation,
            server_output_mode: self.server_output_mode,
            server_output_buffer_bytes: self.server_output_buffer_bytes,
            server_output_dropped: self.server_output_dropped,
            server_output_invalid_utf8_lines: self.server_output_invalid_utf8_lines,
            server_output_lines: match self.server_output_lines {
                Some(lines) => Some(lines@),
                None => None,
            },
            transaction_possibly_lost: self.transaction_possibly_lost,
            deadline_ms: self.deadline_ms,
            executing_request: self.executing_request,
            transaction_possibly_active: self.transaction_possibly_active,
            abandoned: self.abandoned,
        }
    }
}

/// The mode a setting is, and the buffer it names.
pub open spec fn output_setting(setting: ServerOutputSetting) -> (ReldexServerOutputMode, u64) {
    match setting {
        ServerOutputSetting::Disabled => (ReldexServerOutputMode::Disabled, 0),
        ServerOutputSetting::EnabledUnlimited => (ReldexServerOutputMode::EnabledUnlimited, 0),
        ServerOutputSetting::EnabledBytes(bytes) => (
            ReldexServerOutputMode::EnabledBytes,
            bytes as u64,
        ),
    }
}

/// How a close ended, and whether the session is still open.
pub open spec fn close_result(result: Result<(), CloseError>) -> (ReldexCloseOutcome, bool) {
    match result {
        Ok(_) => (ReldexCloseOutcome::Closed, false),
        Err(CloseError::DecisionRequired { .. }) => (ReldexCloseOutcome::DecisionRequired, true),
        Err(CloseError::CommitFailed(_)) => (ReldexCloseOutcome::CommitFailed, true),
        Err(CloseError::RollbackFailed(_)) => (ReldexCloseOutcome::RollbackFailed, true),
        Err(CloseError::Failed(_)) => (ReldexCloseOutcome::Failed, false),
    }
}

/// A number of milliseconds as an event carries it.
pub open spec fn deadline_millis(deadline: Option<u128>) -> Option<u64> {
    match deadline {
        None => None,
        Some(limit) => Some(
            if limit <= u64::MAX {
                limit as u64
            } else {
                u64::MAX
            },
        ),
    }
}

impl QueuedEvent {
    /// Whether the rows an event carries are complete.
    pub open spec fn wf(self) -> bool {
        self.batch matches Some(batch) ==> batch.wf()
    }

    /// An event that says nothing but what it is about.
    pub fn new(kind: ReldexEventKind, session: u64, request: u64) -> (event: Self)
        ensures
            event@ == EventModel::blank(kind, session, request),
            event.wf(),
    {
        QueuedEvent {
            kind,
            session,
            request,
            session_state: ReldexSessionState::Unknown,
            error: None,
            batch: None,
            result: None,
            rows_affected: None,
            connection_id: 0,
            row_count: 0,
            statement_kind: ReldexStatementKind::Unknown,
            cancel_kind: ReldexCancelKind::Unknown,
            close_outcome: ReldexCloseOutcome::Unknown,
            column_count: 0,
            warning_count: 0,
            committed_implicitly: false,
            session_still_open: false,
            completed_operation: ReldexCompletedOperation::Unknown,
            server_output_mode: ReldexServerOutputMode::Unknown,
            server_output_buffer_bytes: 0,
            server_output_dropped: 0,
            server_output_invalid_utf8_lines: 0,
            server_output_lines: None,
            transaction_possibly_lost: false,
            deadline_ms: None,
            executing_request: 0,
            transaction_possibly_active: false,
            abandoned: false,
        }
    }

    /// Names the operation a `Completed` answers.
    pub fn with_completed_operation(self, operation: ReldexCompletedOperation) -> (event: Self)
        ensures
            event@ == (EventModel { completed_operation: operation, ..self@ }),
            event.wf() == self.wf(),
    {
        QueuedEvent { completed_operation: operation, ..self }
    }

    /// Names the server output setting actually in force.
    pub fn with_server_output_setting(self, setting: ServerOutputSetting) -> (event: Self)
        ensures
            event@ == (EventModel {
                server_output_mode: output_setting(setting).0,
                server_output_buffer_bytes: if setting is EnabledBytes {
                    output_setting(setting).1
                } else {
                    self@.server_output_buffer_bytes
                },
                ..self@
            }),
            event.wf() == self.wf(),
    {
        match setting {
            ServerOutputSetting::Disabled => QueuedEvent {
                server_output_mode: ReldexServerOutputMode::Disabled,
                ..self
            },
            ServerOutputSetting::EnabledUnlimited => QueuedEvent {
                server_output_mode: ReldexServerOutputMode::EnabledUnlimited,
                ..self
            },
            ServerOutputSetting::EnabledBytes(bytes) => QueuedEvent {
                server_output_mode: ReldexServerOutputMode::EnabledBytes,
                server_output_buffer_bytes: bytes as u64,
                ..self
            },
        }
    }

    /// Attaches lines, what was dropped ahead of them, and a failed read.
    pub fn with_server_output(
        self,
        live: &mut LiveCounters,
        lines: Vec<String>,
        dropped: u32,
        invalid_utf8_lines: u32,
        failure: Option<&DbError>,
    ) -> (event: Self)
        requires
            self.error is None,
            self.server_output_lines is None,
        ensures
            event@ == (EventModel {
                server_output_dropped: dropped,
                server_output_invalid_utf8_lines: invalid_utf8_lines,
                server_output_lines: if lines@.len() > 0 {
                    Some(texts(lines@))
                } else {
                    None
                },
                error: match failure {
                    Some(failure) => Some(failure@),
                    None => None,
                },
                ..self@
            }),
            event.wf() == self.wf(),
            *final(live) == {
                let lined = if lines@.len() > 0 {
                    old(live).plus(Kind::ServerOutputLines)
                } else {
                    *old(live)
                };
                if failure is Some {
                    lined.plus(Kind::Error)
                } else {
                    lined
                }
            },
    {
        let kept = if lines.len() > 0 {
            Some(ReldexServerOutputLines::new(live, lines))
        } else {
            None
        };
        let error = match failure {
            Some(failure) => Some(ReldexError::from_db_error(live, failure)),
            None => None,
        };
        QueuedEvent {
            server_output_dropped: dropped,
            server_output_invalid_utf8_lines: invalid_utf8_lines,
            server_output_lines: kept,
            error,
            ..self
        }
    }

    /// Says whether a session ended with a transaction possibly unresolved, and
    /// whether the caller abandoned it.
    pub fn with_terminal(self, lost: bool, abandoned: bool) -> (event: Self)
        ensures
            event@ == (EventModel { transaction_possibly_lost: lost, abandoned, ..self@ }),
            event.wf() == self.wf(),
    {
        QueuedEvent { transaction_possibly_lost: lost, abandoned, ..self }
    }

    /// Names the statement that started, and the limit armed on it in
    /// milliseconds.
    pub fn with_executing(self, request: u64, deadline: Option<u128>) -> (event: Self)
        ensures
            event@ == (EventModel {
                executing_request: request,
                deadline_ms: deadline_millis(deadline),
                ..self@
            }),
            event.wf() == self.wf(),
    {
        QueuedEvent {
            executing_request: request,
            deadline_ms: match deadline {
                None => None,
                Some(limit) => Some(
                    if limit <= u64::MAX as u128 {
                        limit as u64
                    } else {
                        u64::MAX
                    },
                ),
            },
            ..self
        }
    }

    /// Says whether a transaction may now be open.
    pub fn with_transaction_possibly_active(self, active: bool) -> (event: Self)
        ensures
            event@ == (EventModel { transaction_possibly_active: active, ..self@ }),
            event.wf() == self.wf(),
    {
        QueuedEvent { transaction_possibly_active: active, ..self }
    }

    /// Attaches a failure, and with it what the failure says of the session.
    pub fn with_error(self, error: ReldexError) -> (event: Self)
        requires
            self.error is None,
        ensures
            event@ == (EventModel {
                session_state: error@.session_state,
                error: Some(error@),
                ..self@
            }),
            event.wf() == self.wf(),
    {
        QueuedEvent {
            session_state: error.session_state_for_event(),
            error: Some(error),
            ..self
        }
    }

    /// Attaches a fetched batch.
    pub fn with_batch(self, batch: ReldexBatch, row_count: usize) -> (event: Self)
        requires
            self.batch is None,
            batch.wf(),
        ensures
            event@ == (EventModel {
                batch: Some(BatchModel { table: batch.table(), columns: batch.described() }),
                row_count,
                ..self@
            }),
            event.wf(),
    {
        QueuedEvent { batch: Some(batch), row_count, ..self }
    }

    /// Names the result set a reply is about.
    pub fn with_result(self, result: u64) -> (event: Self)
        ensures
            event@ == (EventModel { result: Some(result), ..self@ }),
            event.wf() == self.wf(),
    {
        QueuedEvent { result: Some(result), ..self }
    }

    /// Sets the state of the session.
    pub fn with_session_state(self, state: ReldexSessionState) -> (event: Self)
        ensures
            event@ == (EventModel { session_state: state, ..self@ }),
            event.wf() == self.wf(),
    {
        QueuedEvent { session_state: state, ..self }
    }

    /// Says what a statement did. The columns may have been moved out of
    /// `outcome` already, so their number is passed in.
    pub fn with_execute_outcome(
        self,
        outcome: &ExecuteOutcome,
        result: Option<u64>,
        column_count: usize,
    ) -> (event: Self)
        ensures
            event@ == (EventModel {
                result,
                rows_affected: outcome.rows_affected,
                statement_kind: ReldexStatementKind::of(outcome.statement_kind),
                committed_implicitly: outcome.committed_implicitly,
                column_count,
                ..self@
            }),
            event.wf() == self.wf(),
    {
        QueuedEvent {
            result,
            rows_affected: outcome.rows_affected,
            statement_kind: ReldexStatementKind::from_statement_kind(outcome.statement_kind),
            committed_implicitly: outcome.committed_implicitly,
            column_count,
            ..self
        }
    }

    /// Says how a close ended.
    pub fn with_close_outcome(self, result: &Result<(), CloseError>) -> (event: Self)
        ensures
            event@ == (EventModel {
                close_outcome: close_result(*result).0,
                session_still_open: close_result(*result).1,
                ..self@
            }),
            event.wf() == self.wf(),
    {
        let (outcome, still_open) = match result {
            Ok(_) => (ReldexCloseOutcome::Closed, false),
            Err(CloseError::DecisionRequired { .. }) => (
                ReldexCloseOutcome::DecisionRequired,
                true,
            ),
            Err(CloseError::CommitFailed(_)) => (ReldexCloseOutcome::CommitFailed, true),
            Err(CloseError::RollbackFailed(_)) => (ReldexCloseOutcome::RollbackFailed, true),
            Err(CloseError::Failed(_)) => (ReldexCloseOutcome::Failed, false),
        };
        QueuedEvent { close_outcome: outcome, session_still_open: still_open, ..self }
    }

    /// Converts to the flat shape, `valid` bytes of which are valid, handing
    /// the error, the batch and the lines to the caller.
    pub fn into_c(self, valid: u32) -> (event: ReldexEvent)
        ensures
            event.says(self@),
            event.struct_size == valid,
            event.wf() == self.wf(),
    {
        ReldexEvent {
            struct_size: valid,
            kind: self.kind as i32,
            session: self.session,
            request: self.request,
            result: match self.result {
                Some(result) => result,
                None => 0,
            },
            rows_affected: match self.rows_affected {
                Some(rows) => rows,
                None => 0,
            },
            connection_id: self.connection_id,
            row_count: self.row_count,
            error: self.error,
            batch: self.batch,
            session_state: self.session_state as i32,
            statement_kind: self.statement_kind as i32,
            cancel_kind: self.cancel_kind as i32,
            close_outcome: self.close_outcome as i32,
            column_count: self.column_count,
            warning_count: self.warning_count,
            has_result: self.result.is_some(),
            has_rows_affected: self.rows_affected.is_some(),
            committed_implicitly: self.committed_implicitly,
            session_still_open: self.session_still_open,
            completed_operation: self.completed_operation as i32,
            server_output_mode: self.server_output_mode as i32,
            server_output_buffer_bytes: self.server_output_buffer_bytes,
            server_output_dropped: self.server_output_dropped,
            server_output_invalid_utf8_lines: self.server_output_invalid_utf8_lines,
            server_output_lines: self.server_output_lines,
            transaction_possibly_lost: self.transaction_possibly_lost,
            has_deadline: self.deadline_ms.is_some(),
            transaction_possibly_active: self.transaction_possibly_active,
            abandoned: self.abandoned,
            deadline_ms: match self.deadline_ms {
                Some(limit) => limit,
                None => 0,
            },
            executing_request: self.executing_request,
        }
    }
}

/// One event as a caller receives it, with what it owns.
pub struct ReldexEvent {
    /// How many bytes of the event are valid.
    pub struct_size: u32,
    /// A [`ReldexEventKind`].
    pub kind: i32,
    /// The session this event belongs to.
    pub session: u64,
    /// On a reply, the id the caller passed with the request it answers. `0` on
    /// every kind that answers nothing.
    pub request: u64,
    /// The result set this event is about, when `has_result`.
    pub result: u64,
    /// `Executed`: rows changed, when `has_rows_affected`.
    pub rows_affected: u64,
    /// `Opened`: the driver connection's id.
    pub connection_id: u64,
    /// `Fetched`: the batch's row count. Zero means exhausted.
    pub row_count: usize,
    /// The failure, if any.
    pub error: Option<ReldexError>,
    /// `Fetched`: the batch, if any.
    pub batch: Option<ReldexBatch>,
    /// A [`ReldexSessionState`]: usable on a successful reply, and the
    /// session's state when the event was taken on every other.
    pub session_state: i32,
    /// `Executed`: a [`ReldexStatementKind`].
    pub statement_kind: i32,
    /// `Opened`: a [`ReldexCancelKind`].
    pub cancel_kind: i32,
    /// `SessionClosed`: a [`ReldexCloseOutcome`].
    pub close_outcome: i32,
    /// `Executed`: how many columns the result has.
    pub column_count: usize,
    /// `Opened`: how many connect-time warnings the session reported.
    pub warning_count: usize,
    /// Whether `result` names a result set.
    pub has_result: bool,
    /// Whether `rows_affected` is meaningful.
    pub has_rows_affected: bool,
    /// `Executed`: whether the server committed as a side effect.
    pub committed_implicitly: bool,
    /// `SessionClosed`: whether the session is still open and usable.
    pub session_still_open: bool,
    /// `Completed`: a [`ReldexCompletedOperation`].
    pub completed_operation: i32,
    /// `ServerOutputConfigured`: a [`ReldexServerOutputMode`].
    pub server_output_mode: i32,
    /// `ServerOutputConfigured`: the buffer size actually in force.
    pub server_output_buffer_bytes: u64,
    /// `ServerOutput` and `Terminal`: how many lines were dropped.
    pub server_output_dropped: u32,
    /// `ServerOutput`: how many lines were not valid UTF-8 on the wire.
    pub server_output_invalid_utf8_lines: u32,
    /// `ServerOutput`: the lines, if any.
    pub server_output_lines: Option<ReldexServerOutputLines>,
    /// `Terminal`: whether the session ended while it may still have held an
    /// unresolved transaction.
    pub transaction_possibly_lost: bool,
    /// `Executing`: whether `deadline_ms` is meaningful.
    pub has_deadline: bool,
    /// `TransactionState`: whether a transaction may now be open.
    pub transaction_possibly_active: bool,
    /// `Terminal`: whether the caller abandoned the session.
    pub abandoned: bool,
    /// `Executing`: the limit armed on the statement, in milliseconds.
    pub deadline_ms: u64,
    /// `Executing`: the request that started.
    pub executing_request: u64,
}

/// The number behind an optional one, zero where there is none.
pub open spec fn id_or_zero(value: Option<u64>) -> u64 {
    match value {
        Some(value) => value,
        None => 0,
    }
}

impl ReldexEvent {
    /// Whether the rows the event carries are complete.
    pub open spec fn wf(self) -> bool {
        self.batch matches Some(batch) ==> batch.wf()
    }

    /// Whether the event says what `event` says.
    pub open spec fn says(self, event: EventModel) -> bool {
        &&& self.kind == event.kind as i32
        &&& self.session == event.session
        &&& self.request == event.request
        &&& self.result == id_or_zero(event.result)
        &&& self.has_result == event.result is Some
        &&& self.rows_affected == id_or_zero(event.rows_affected)
        &&& self.has_rows_affected == event.rows_affected is Some
        &&& self.connection_id == event.connection_id
        &&& self.row_count == event.row_count
        &&& match self.error {
            Some(error) => event.error == Some(error@),
            None => event.error is None,
        }
        &&& match self.batch {
            Some(batch) => event.batch == Some(
                BatchModel { table: batch.table(), columns: batch.described() },
            ),
            None => event.batch is None,
        }
        &&& self.session_state == event.session_state as i32
        &&& self.statement_kind == event.statement_kind as i32
        &&& self.cancel_kind == event.cancel_kind as i32
        &&& self.close_outcome == event.close_outcome as i32
        &&& self.column_count == event.column_count
        &&& self.warning_count == event.warning_count
        &&& self.committed_implicitly == event.committed_implicitly
        &&& self.session_still_open == event.session_still_open
        &&& self.completed_operation == event.completed_operation as i32
        &&& self.server_output_mode == event.server_output_mode as i32
        &&& self.server_output_buffer_bytes == event.server_output_buffer_bytes
        &&& self.server_output_dropped == event.server_output_dropped
        &&& self.server_output_invalid_utf8_lines == event.server_output_invalid_utf8_lines
        &&& match self.server_output_lines {
            Some(lines) => event.server_output_lines == Some(lines@),
            None => event.server_output_lines is None,
        }
        &&& self.transaction_possibly_lost == event.transaction_possibly_lost
        &&& self.has_deadline == event.deadline_ms is Some
        &&& self.deadline_ms == id_or_zero(event.deadline_ms)
        &&& self.transaction_possibly_active == event.transaction_possibly_active
        &&& self.abandoned == event.abandoned
        &&& self.executing_request == event.executing_request
    }
}

/// Printed lines are counted from when they are taken in until they are released;
/// a refused release leaves them with their caller.
pub proof fn lines_are_counted_until_released(
    live: &mut LiveCounters,
    printed: Vec<String>,
    lines: ReldexServerOutputLines,
    boundary: &mut Boundary,
    kept: Option<ReldexServerOutputLines>,
)
    requires
        call_ensures(ReldexServerOutputLines::new, (live, printed), lines),
        call_ensures(reldex_server_output_lines_release, (boundary, Some(lines)), kept),
    ensures
        *final(live) == (LiveCounters {
            misc_objects: next_count(old(live).misc_objects),
            ..*old(live)
        }),
        !old(boundary)@.in_waker ==> {
            &&& kept is None
            &&& old(boundary)@.live == *final(live) ==> final(boundary)@.live == *old(live)
            &&& final(boundary)@.last_error == old(boundary)@.last_error
        },
        old(boundary)@.in_waker ==> {
            &&& kept == Some(lines)
            &&& final(boundary)@.live.misc_objects == old(boundary)@.live.misc_objects
        },
{
}

/// Printed lines are read back one by one, in the order they were printed, and
/// nothing is read behind the last.
pub proof fn lines_are_read_back_in_order(
    live: &mut LiveCounters,
    printed: Vec<String>,
    lines: ReldexServerOutputLines,
    boundary: &mut Boundary,
    count: usize,
    index: usize,
    line: ReldexStr<'_>,
)
    requires
        call_ensures(ReldexServerOutputLines::new, (live, printed), lines),
        !old(boundary)@.in_waker,
        call_ensures(reldex_server_output_lines_count, (boundary, Some(&lines)), count),
        call_ensures(reldex_server_output_lines_get, (boundary, Some(&lines), index), line),
    ensures
        count == printed@.len(),
        index < printed@.len() ==> line.text() == Some(printed@[index as int]@),
        index >= printed@.len() ==> line.text() == Some(Seq::<char>::empty()),
        final(boundary)@ == old(boundary)@,
{
    if index < printed@.len() {
        assert(lines@[index as int] == texts(printed@)[index as int]);
    }
}

} // verus!
