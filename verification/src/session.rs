//! Sessions: what a hub knows of each, and the requests that are made of them.
//!
//! A request takes two steps. The first checks it and records the reply it owes;
//! the second takes what the session's worker said to it. Whether the core hands
//! a session out yet is an argument of every first step.

use std::sync::Arc;

use vstd::prelude::*;

use crate::batch::{
    ColumnMetadata, ColumnModel, ReldexColumnInfo, ReldexColumnKind, ResultColumns,
};
use crate::counters::{Kind, LiveCounters};
use crate::error::{DbError, ErrorKind, ErrorModel, ReldexErrorKind, ReldexSessionState,
    SessionLifecycle};
use crate::event::ReldexServerOutputMode;
use crate::hub::{next_id, HubModel, Pending, PendingModel, ReldexHub};
use crate::idmap::IdMap;
use crate::status::{Boundary, BoundaryModel, ReldexStatus};
use crate::strings::ReldexStr;
use crate::text::{decimal, push_decimal};
use crate::translate::{hub_after, SessionEvent, SessionFacts};

verus! {

/// Identifies one session. Never reused, in this process.
pub type ReldexSessionId = u64;

/// Identifies one open result set, scoped to the session that produced it.
pub type ReldexResultId = u64;

/// The caller's own correlation id, echoed on the one event that replies to the
/// request it was passed with.
pub type ReldexRequestId = u64;

/// What a cancel can do, as the driver reports it.
#[derive(Debug, Clone, Copy, PartialEq, Eq, Structural)]
pub enum CancelKind {
    Unsupported,
    PreArmedDeadline,
    Native,
    /// A kind this library predates.
    Unrecognized,
}

/// What a cancel on a session can actually do.
///
/// `0` is reserved for a kind the caller's header predates.
#[derive(Debug, Clone, Copy, PartialEq, Eq, Structural)]
pub enum ReldexCancelKind {
    /// A kind this header does not know.
    Unknown,
    /// The driver cannot stop a running statement at all.
    Unsupported,
    /// The driver can only enforce a deadline armed before the statement
    /// started.
    PreArmedDeadline,
    /// The driver can interrupt a running statement.
    Native,
}

impl ReldexCancelKind {
    /// The stable kind of a reported one.
    pub open spec fn of(kind: CancelKind) -> Self {
        match kind {
            CancelKind::Unsupported => ReldexCancelKind::Unsupported,
            CancelKind::PreArmedDeadline => ReldexCancelKind::PreArmedDeadline,
            CancelKind::Native => ReldexCancelKind::Native,
            CancelKind::Unrecognized => ReldexCancelKind::Unknown,
        }
    }

    /// The stable kind of a reported one.
    pub fn from_cancel_kind(kind: CancelKind) -> (stable: Self)
        ensures
            stable == Self::of(kind),
    {
        match kind {
            CancelKind::Unsupported => ReldexCancelKind::Unsupported,
            CancelKind::PreArmedDeadline => ReldexCancelKind::PreArmedDeadline,
            CancelKind::Native => ReldexCancelKind::Native,
            CancelKind::Unrecognized => ReldexCancelKind::Unknown,
        }
    }
}

/// What kind of statement ran, as the driver reports it.
#[derive(Debug, Clone, Copy, PartialEq, Eq, Structural)]
pub enum StatementKind {
    Query,
    Dml,
    Ddl,
    PlSqlBlock,
    TransactionControl,
    SessionControl,
    Other,
    /// A kind this library predates.
    Unrecognized,
}

/// What a statement did.
#[derive(Debug)]
pub struct ExecuteOutcome {
    /// The result set it opened, by the core's own id.
    pub result: Option<u64>,
    pub columns: Vec<ColumnMetadata>,
    pub rows_affected: Option<u64>,
    pub statement_kind: StatementKind,
    pub committed_implicitly: bool,
}

/// How a close failed.
#[derive(Debug)]
pub enum CloseError {
    /// A transaction may be open and no disposition was given; the explanation
    /// to show.
    DecisionRequired { explanation: String },
    CommitFailed(DbError),
    RollbackFailed(DbError),
    Failed(DbError),
}

/// Whether a session collects server output, and with what buffer.
#[derive(Debug, Clone, Copy, PartialEq, Eq, Structural)]
pub enum ServerOutputSetting {
    Disabled,
    EnabledUnlimited,
    /// Enabled with this many bytes; above zero.
    EnabledBytes(u32),
}

/// Where a session is in its life.
#[derive(Debug, Clone, Copy, PartialEq, Eq, Structural)]
pub enum Phase {
    /// Connecting; nothing may be submitted until the core hands the session
    /// out, which it does from the moment the connect succeeds.
    Opening,
    /// Open for business.
    Open,
    /// Closed, abandoned, or its open failed. Nothing more is accepted.
    Closed,
}

/// One open result set: the core's id of it, and the columns its batches
/// describe.
pub struct ResultEntry {
    pub id: u64,
    pub columns: Arc<ResultColumns>,
}

/// One open result set.
#[verifier::ext_equal]
pub struct ResultModel {
    pub id: u64,
    pub columns: Seq<ColumnModel>,
}

impl View for ResultEntry {
    type V = ResultModel;

    open spec fn view(&self) -> ResultModel {
        ResultModel { id: self.id, columns: self.columns@ }
    }
}

/// One session's entry in its hub.
pub struct SessionEntry {
    pub phase: Phase,
    /// Whether the hub holds the session's handle.
    pub connected: bool,
    pub results: IdMap<ResultEntry>,
    pub next_result_id: u64,
    /// The caller submitted a close or called abandon, which ends the lifetime
    /// of every column description this session handed out.
    pub caller_ended: bool,
    /// The caller abandoned the session.
    pub abandoned: bool,
    /// Whether the mock can park a statement of this session.
    pub block: bool,
    /// Whether the mock can park this session's connect.
    pub connect_block: bool,
}

/// One session.
#[verifier::ext_equal]
pub struct SessionModel {
    pub phase: Phase,
    pub connected: bool,
    pub results: Map<u64, ResultModel>,
    pub next_result: u64,
    pub caller_ended: bool,
    pub abandoned: bool,
    pub block: bool,
    pub connect_block: bool,
}

impl View for SessionEntry {
    type V = SessionModel;

    open spec fn view(&self) -> SessionModel {
        SessionModel {
            phase: self.phase,
            connected: self.connected,
            results: self.results@,
            next_result: self.next_result_id,
            caller_ended: self.caller_ended,
            abandoned: self.abandoned,
            block: self.block,
            connect_block: self.connect_block,
        }
    }
}

impl SessionModel {
    /// A session that is connecting.
    pub open spec fn opening(block: bool, connect_block: bool) -> Self {
        SessionModel {
            phase: Phase::Opening,
            connected: false,
            results: Map::empty(),
            next_result: 1,
            caller_ended: false,
            abandoned: false,
            block,
            connect_block,
        }
    }

    /// Whether something may be submitted. `ready` is whether the core hands
    /// the session out, which it does from the moment the connect succeeded.
    pub open spec fn usable(self, ready: bool) -> bool {
        match self.phase {
            Phase::Open => self.connected,
            Phase::Closed => false,
            Phase::Opening => ready,
        }
    }

    /// Once the hub has asked for the session's handle.
    pub open spec fn asked(self, ready: bool) -> Self {
        if self.phase == Phase::Opening && ready {
            SessionModel { phase: Phase::Open, connected: true, ..self }
        } else {
            self
        }
    }

    /// The state a session is in when an event is taken; `lifecycle` is what
    /// its handle says of it, where the hub holds one.
    pub open spec fn state(self, lifecycle: SessionLifecycle) -> ReldexSessionState {
        if self.connected {
            ReldexSessionState::of_lifecycle(lifecycle)
        } else if self.phase == Phase::Closed {
            ReldexSessionState::Closed
        } else {
            ReldexSessionState::Unknown
        }
    }

    /// Once a result is open under the next key.
    pub open spec fn with_result(self, id: u64, columns: Seq<ColumnModel>) -> Self {
        SessionModel {
            results: self.results.insert(self.next_result, ResultModel { id, columns }),
            next_result: next_id(self.next_result),
            ..self
        }
    }

    /// Once the session closed at the caller's request.
    pub open spec fn closed(self) -> Self {
        SessionModel {
            phase: Phase::Closed,
            connected: false,
            results: Map::empty(),
            caller_ended: true,
            ..self
        }
    }
}

impl SessionModel {
    /// Whether every key given to a result so far is below the next one.
    pub open spec fn keys_below_next(self) -> bool {
        forall|key: u64| #[trigger] self.results.contains_key(key) ==> key < self.next_result
    }
}

/// A result gets a key that no other open result of its session has, and so does
/// the next one, until the keys run out: a result that was closed does not come
/// back under the key of another.
pub proof fn result_keys_are_fresh(session: SessionModel, id: u64, columns: Seq<ColumnModel>)
    requires
        session.keys_below_next(),
        session.next_result < u64::MAX,
    ensures
        !session.results.contains_key(session.next_result),
        session.with_result(id, columns).keys_below_next(),
        session.with_result(id, columns).next_result > session.next_result,
{
}

/// Whether some open result is described by `columns`.
pub open spec fn describes_a_result(
    columns: Seq<ColumnModel>,
    results: Map<u64, ResultModel>,
) -> bool {
    exists|key: u64| #[trigger] results.contains_key(key) && results[key].columns == columns
}

/// Whether `columns` describe the open results, one for each.
pub open spec fn describes_results(
    columns: Seq<Arc<ResultColumns>>,
    results: Map<u64, ResultModel>,
) -> bool {
    &&& columns.len() == results.dom().len()
    &&& forall|key: u64| #[trigger]
        results.contains_key(key) ==> exists|i: int|
            0 <= i < columns.len() && (#[trigger] columns[i])@ == results[key].columns
    &&& forall|i: int|
        0 <= i < columns.len() ==> describes_a_result((#[trigger] columns[i])@, results)
}

/// What retiring an entry leaves behind.
pub struct Ended {
    pub abandoned: bool,
    pub caller_ended: bool,
    pub columns: Vec<Arc<ResultColumns>>,
}

impl SessionEntry {
    /// A session that is connecting, counted.
    pub fn new(live: &mut LiveCounters, block: bool, connect_block: bool) -> (entry: Self)
        ensures
            entry@ == SessionModel::opening(block, connect_block),
            *final(live) == old(live).plus(Kind::Session),
    {
        live.created(Kind::Session);
        SessionEntry {
            phase: Phase::Opening,
            connected: false,
            results: IdMap::new(),
            next_result_id: 1,
            caller_ended: false,
            abandoned: false,
            block,
            connect_block,
        }
    }

    /// Asks for the session's handle: whether something may be submitted. A
    /// session is usable from the moment it connects, not from the moment the
    /// caller drains its `Opened`.
    pub fn handle(&mut self, ready: bool) -> (usable: bool)
        ensures
            usable == old(self)@.usable(ready),
            final(self)@ == old(self)@.asked(ready),
    {
        match self.phase {
            Phase::Open => self.connected,
            Phase::Closed => false,
            Phase::Opening => {
                if ready {
                    self.phase = Phase::Open;
                    self.connected = true;
                }
                ready
            },
        }
    }

    /// The state reported on an event that carries no error.
    pub fn state(&self, lifecycle: SessionLifecycle) -> (state: ReldexSessionState)
        ensures
            state == self@.state(lifecycle),
    {
        if self.connected {
            ReldexSessionState::from_lifecycle(lifecycle)
        } else {
            match self.phase {
                Phase::Closed => ReldexSessionState::Closed,
                _ => ReldexSessionState::Unknown,
            }
        }
    }

    /// The core's id and the shared columns of the open result `key`.
    pub fn result(&self, key: u64) -> (open: Option<(u64, Arc<ResultColumns>)>)
        ensures
            match open {
                Some((id, columns)) => {
                    &&& self@.results.contains_key(key)
                    &&& self@.results[key] == (ResultModel { id, columns: columns@ })
                },
                None => !self@.results.contains_key(key),
            },
    {
        match self.results.get(key) {
            Some(open) => Some((open.id, Arc::clone(&open.columns))),
            None => None,
        }
    }

    /// Records a result the session just opened, and gives it a key.
    pub fn register_result(&mut self, id: u64, columns: Arc<ResultColumns>) -> (key: u64)
        ensures
            key == old(self)@.next_result,
            final(self)@ == old(self)@.with_result(id, columns@),
    {
        let key: u64 = self.next_result_id;
        self.next_result_id = if key == u64::MAX {
            0
        } else {
            key + 1
        };
        self.results.insert(key, ResultEntry { id, columns });
        key
    }

    /// The key of the open result that the core calls `id`.
    pub fn result_key(&self, id: u64) -> (key: Option<u64>)
        ensures
            match key {
                Some(key) => self@.results.contains_key(key) && self@.results[key].id == id,
                None => forall|key: u64| #[trigger]
                    self@.results.contains_key(key) ==> self@.results[key].id != id,
            },
    {
        let keys = self.results.ids();
        let mut index: usize = 0;
        while index < keys.len()
            invariant
                index <= keys@.len(),
                forall|key: u64| #[trigger] keys@.contains(key) <==> self@.results.contains_key(key),
                forall|i: int| 0 <= i < index ==> self@.results[#[trigger] keys@[i]].id != id,
            decreases keys@.len() - index,
        {
            let key: u64 = keys[index];
            assert(keys@.contains(key));
            if let Some(open) = self.results.get(key) {
                if open.id == id {
                    return Some(key);
                }
            }
            index += 1;
        }
        assert forall|key: u64| #[trigger] self@.results.contains_key(key) implies self@.results[key].id
            != id by {
            assert(keys@.contains(key));
            let i = choose|i: int| 0 <= i < keys@.len() && keys@[i] == key;
            assert(self@.results[keys@[i]].id != id);
        }
        None
    }

    /// Forgets a result the caller closed.
    pub fn forget_result(&mut self, key: u64) -> (columns: Option<Arc<ResultColumns>>)
        ensures
            final(self)@ == (SessionModel {
                results: old(self)@.results.remove(key),
                ..old(self)@
            }),
            match columns {
                Some(columns) => {
                    &&& old(self)@.results.contains_key(key)
                    &&& columns@ == old(self)@.results[key].columns
                },
                None => !old(self)@.results.contains_key(key),
            },
    {
        match self.results.remove(key) {
            Some(open) => Some(open.columns),
            None => None,
        }
    }

    /// Takes the column descriptions of every open result out.
    fn drain_columns(&mut self) -> (columns: Vec<Arc<ResultColumns>>)
        ensures
            final(self)@ == (SessionModel { results: Map::empty(), ..old(self)@ }),
            describes_results(columns@, old(self)@.results),
    {
        let keys = self.results.ids();
        let ghost results = self.results@;
        let mut columns: Vec<Arc<ResultColumns>> = Vec::new();
        let mut index: usize = 0;
        while index < keys.len()
            invariant
                index <= keys@.len(),
                self.results@ == results,
                keys@.len() == results.dom().len(),
                forall|key: u64| #[trigger] keys@.contains(key) <==> results.contains_key(key),
                columns@.len() == index,
                forall|i: int|
                    0 <= i < index ==> (#[trigger] columns@[i])@ == results[keys@[i]].columns,
                self@ == old(self)@,
            decreases keys@.len() - index,
        {
            assert(keys@.contains(keys@[index as int]));
            if let Some(open) = self.results.get(keys[index]) {
                columns.push(Arc::clone(&open.columns));
            }
            index += 1;
        }
        assert(old(self)@.results == results);
        self.results = IdMap::new();
        proof {
            assert forall|key: u64| #[trigger] results.contains_key(key) implies exists|i: int|
                0 <= i < columns@.len() && (#[trigger] columns@[i])@ == results[key].columns by {
                assert(keys@.contains(key));
                let i = choose|i: int| 0 <= i < keys@.len() && keys@[i] == key;
                assert(columns@[i]@ == results[key].columns);
            }
            assert forall|i: int| 0 <= i < columns@.len() implies describes_a_result(
                (#[trigger] columns@[i])@,
                results,
            ) by {
                assert(keys@.contains(keys@[i]));
                assert(results.contains_key(keys@[i]));
            }
        }
        columns
    }

    /// The session closed at the caller's request: nothing more is accepted,
    /// and every column description's lifetime has ended.
    pub fn close(&mut self) -> (columns: Vec<Arc<ResultColumns>>)
        ensures
            final(self)@ == old(self)@.closed(),
            describes_results(columns@, old(self)@.results),
    {
        let columns = self.drain_columns();
        self.phase = Phase::Closed;
        self.caller_ended = true;
        self.connected = false;
        columns
    }

    /// Takes everything the entry still holds, when the session ends.
    pub fn end(&mut self) -> (ended: Ended)
        ensures
            final(self)@ == (SessionModel {
                phase: Phase::Closed,
                connected: false,
                results: Map::empty(),
                ..old(self)@
            }),
            ended.abandoned == old(self)@.abandoned,
            ended.caller_ended == old(self)@.caller_ended,
            describes_results(ended.columns@, old(self)@.results),
    {
        let columns = self.drain_columns();
        self.phase = Phase::Closed;
        self.connected = false;
        Ended { abandoned: self.abandoned, caller_ended: self.caller_ended, columns }
    }
}

/// What to do with a possibly open transaction when closing a session.
#[derive(Debug, Clone, Copy, PartialEq, Eq, Structural)]
pub enum CloseDisposition {
    Commit,
    Rollback,
}

/// What to do with a possibly open transaction when closing a session, as a
/// caller says it.
///
/// With `Undecided`, a close that finds a transaction comes back with the
/// session still open, so that the user can be asked. Nothing is ever committed
/// silently.
#[derive(Debug, Clone, Copy, PartialEq, Eq, Structural)]
pub enum ReldexCloseDisposition {
    /// A disposition this header does not know.
    Unknown,
    /// No decision has been made yet.
    Undecided,
    /// Commit the open transaction before closing.
    Commit,
    /// Roll the open transaction back before closing.
    Rollback,
}

/// A request as it is handed to the session's worker.
#[derive(Debug)]
pub enum SessionCommand {
    Execute { sql: String, deadline_ms: Option<u64> },
    /// `result` is the core's id.
    Fetch { result: u64, max_rows: u32 },
    /// `result` is the core's id.
    CloseResult { result: u64 },
    Close { disposition: Option<CloseDisposition> },
    Commit,
    Rollback,
    Savepoint { name: String },
    RollbackToSavepoint { name: String },
    Ping,
    SetServerOutput { setting: ServerOutputSetting },
}

/// A request that was recorded and is to be sent under the id it was given.
#[derive(Debug)]
pub struct Submission {
    pub request: u64,
    pub command: SessionCommand,
}

/// What a caller is told whose hub pointer is null.
pub open spec fn without_hub(boundary: BoundaryModel) -> BoundaryModel {
    boundary.argument_error("the hub pointer is null or unaligned"@)
}

/// What a caller is told of a session that is not on the hub.
pub open spec fn unknown_session(session: u64) -> ErrorModel {
    ErrorModel::internal(
        "reldex-ffi: session "@ + decimal(session as nat)
            + " is not on this hub; its TERMINAL event has been drained, or it belongs to another hub"@,
    )
}

/// What a caller is told whose request cannot be submitted.
pub open spec fn not_open(what: Seq<char>) -> ErrorModel {
    ErrorModel::internal(
        "reldex-ffi: "@ + what
            + " was refused because the session is not open: it is still connecting, its connect failed, or it was closed or abandoned"@,
    )
}

/// What a caller is told who names a result that is not open.
pub open spec fn unknown_result_error(what: Seq<char>) -> ErrorModel {
    ErrorModel::internal(
        "reldex-ffi: "@ + what
            + " names a result that this session does not have open; it was closed, or it belongs to another session"@,
    )
}

/// Records that a session is not on the hub.
pub(crate) fn set_unknown_session(boundary: &mut Boundary, session: u64) -> (status: ReldexStatus)
    ensures
        status == ReldexStatus::NotFound,
        final(boundary)@ == old(boundary)@.failed(unknown_session(session)),
{
    let mut text = String::from_str("reldex-ffi: session ");
    push_decimal(&mut text, session);
    text.append(
        " is not on this hub; its TERMINAL event has been drained, or it belongs to another hub",
    );
    boundary.set_last_error(DbError::internal(text));
    ReldexStatus::NotFound
}

/// Records why a request was refused before it reached the session.
fn refused(boundary: &mut Boundary, what: &str) -> (status: ReldexStatus)
    ensures
        status == ReldexStatus::InvalidState,
        final(boundary)@ == old(boundary)@.failed(not_open(what@)),
{
    let mut text = String::from_str("reldex-ffi: ");
    text.append(what);
    text.append(
        " was refused because the session is not open: it is still connecting, its connect failed, or it was closed or abandoned",
    );
    boundary.set_last_error(DbError::internal(text));
    ReldexStatus::InvalidState
}

/// Records that a call named a result the session does not have open.
fn unknown_result(boundary: &mut Boundary, what: &str) -> (status: ReldexStatus)
    ensures
        status == ReldexStatus::NotFound,
        final(boundary)@ == old(boundary)@.failed(unknown_result_error(what@)),
{
    let mut text = String::from_str("reldex-ffi: ");
    text.append(what);
    text.append(
        " names a result that this session does not have open; it was closed, or it belongs to another session",
    );
    boundary.set_last_error(DbError::internal(text));
    ReldexStatus::NotFound
}

/// A request on a hub: what becomes of the hub and of the caller's last error,
/// and the id the request is sent under or the status it is refused with.
pub struct Submitted {
    pub hub: HubModel,
    pub boundary: BoundaryModel,
    pub outcome: Result<u64, ReldexStatus>,
}

impl Submitted {
    /// A refusal that changes nothing but the last error.
    pub open spec fn refusal(hub: HubModel, boundary: BoundaryModel, status: ReldexStatus) -> Self {
        Submitted { hub, boundary, outcome: Err(status) }
    }
}

/// What becomes of a request that owes `pending`. `ready` is whether the core
/// hands the session out.
pub open spec fn submitted(
    hub: HubModel,
    boundary: BoundaryModel,
    session: u64,
    ready: bool,
    what: Seq<char>,
    pending: PendingModel,
) -> Submitted {
    if !hub.sessions.contains_key(session) {
        Submitted::refusal(
            hub,
            boundary.failed(unknown_session(session)),
            ReldexStatus::NotFound,
        )
    } else if !hub.sessions[session].usable(ready) {
        Submitted::refusal(hub, boundary.failed(not_open(what)), ReldexStatus::InvalidState)
    } else {
        Submitted {
            hub: hub.with_session(session, hub.sessions[session].asked(ready)).begun(pending),
            boundary,
            outcome: Ok(hub.next_request),
        }
    }
}

/// What becomes of a request that names the open result `result`: as any other,
/// but that the result has to be open.
pub open spec fn submitted_on_result(
    hub: HubModel,
    boundary: BoundaryModel,
    session: u64,
    ready: bool,
    what: Seq<char>,
    result: u64,
    pending: PendingModel,
) -> Submitted {
    if hub.sessions.contains_key(session) && hub.sessions[session].usable(ready)
        && !hub.sessions[session].results.contains_key(result) {
        Submitted::refusal(
            hub.with_session(session, hub.sessions[session].asked(ready)),
            boundary.failed(unknown_result_error(what)),
            ReldexStatus::NotFound,
        )
    } else {
        submitted(hub, boundary, session, ready, what, pending)
    }
}

/// Whether a call answered as `submitted` says, sending what `sends` says.
pub open spec fn submits(
    submitted: Submitted,
    hub: HubModel,
    boundary: BoundaryModel,
    answer: Result<Submission, ReldexStatus>,
) -> bool {
    &&& hub == submitted.hub
    &&& boundary == submitted.boundary
    &&& match answer {
        Ok(submission) => submitted.outcome == Ok::<u64, ReldexStatus>(submission.request),
        Err(status) => submitted.outcome == Err::<u64, ReldexStatus>(status),
    }
}

impl ReldexHub {
    /// Asks whether something may be submitted on `session`, which is on this
    /// hub.
    pub(crate) fn session_usable(&mut self, session: u64, ready: bool) -> (usable: bool)
        requires
            old(self)@.sessions.contains_key(session),
        ensures
            usable == old(self)@.sessions[session].usable(ready),
            final(self)@ == old(self)@.with_session(
                session,
                old(self)@.sessions[session].asked(ready),
            ),
    {
        match self.sessions.remove(session) {
            None => false,
            Some(mut entry) => {
                let usable = entry.handle(ready);
                self.sessions.insert(session, entry);
                assert(self@.sessions =~= old(self)@.sessions.insert(
                    session,
                    old(self)@.sessions[session].asked(ready),
                ));
                usable
            },
        }
    }

    /// Records one request, unless the session is not there or not open.
    fn submit(
        &mut self,
        boundary: &mut Boundary,
        session: u64,
        ready: bool,
        what: &str,
        pending: Pending,
    ) -> (request: Result<u64, ReldexStatus>)
        ensures
            ({
                let expected = submitted(
                    old(self)@,
                    old(boundary)@,
                    session,
                    ready,
                    what@,
                    pending@,
                );
                &&& request == expected.outcome
                &&& final(self)@ == expected.hub
                &&& final(boundary)@ == expected.boundary
            }),
    {
        if self.sessions.get(session).is_none() {
            return Err(set_unknown_session(boundary, session));
        }
        if !self.session_usable(session, ready) {
            assert(self@.sessions =~= old(self)@.sessions);
            return Err(refused(boundary, what));
        }
        Ok(self.begin_request(pending))
    }

    /// The core's id and the columns of an open result, or the refusal that a
    /// request naming it gets.
    fn open_result(
        &mut self,
        boundary: &mut Boundary,
        session: u64,
        ready: bool,
        what: &str,
        result: u64,
    ) -> (open: Result<(u64, Arc<ResultColumns>), ReldexStatus>)
        ensures
            ({
                let any = PendingModel::caller(0);
                let expected = submitted_on_result(
                    old(self)@,
                    old(boundary)@,
                    session,
                    ready,
                    what@,
                    result,
                    any,
                );
                match open {
                    Ok((id, columns)) => {
                        &&& expected.outcome is Ok
                        &&& final(boundary)@ == old(boundary)@
                        &&& final(self)@ == old(self)@.with_session(
                            session,
                            old(self)@.sessions[session].asked(ready),
                        )
                        &&& old(self)@.sessions[session].results[result] == (ResultModel {
                            id,
                            columns: columns@,
                        })
                    },
                    Err(status) => {
                        &&& expected.outcome == Err::<u64, ReldexStatus>(status)
                        &&& final(boundary)@ == expected.boundary
                        &&& final(self)@ == expected.hub
                    },
                }
            }),
    {
        if self.sessions.get(session).is_none() {
            return Err(set_unknown_session(boundary, session));
        }
        if !self.session_usable(session, ready) {
            assert(self@.sessions =~= old(self)@.sessions);
            return Err(refused(boundary, what));
        }
        let open = match self.sessions.get(session) {
            Some(entry) => entry.result(result),
            None => None,
        };
        match open {
            Some(open) => Ok(open),
            None => Err(unknown_result(boundary, what)),
        }
    }
}

/// Whether a call from inside a waker was refused.
pub open spec fn refused_in_waker(
    before: BoundaryModel,
    after: BoundaryModel,
    answer: Result<Submission, ReldexStatus>,
) -> bool {
    &&& answer == Err::<Submission, _>(ReldexStatus::Reentrant)
    &&& after == before.refused()
}

/// Whether a call was refused for an argument.
pub open spec fn refused_argument(
    before: BoundaryModel,
    after: BoundaryModel,
    answer: Result<Submission, ReldexStatus>,
    message: Seq<char>,
) -> bool {
    &&& answer == Err::<Submission, _>(ReldexStatus::InvalidArgument)
    &&& after == before.argument_error(message)
}

/// Whether a request without a result was answered as it has to be: refused
/// without a hub, and otherwise recorded or refused by the session's state.
pub open spec fn submits_simple(
    hub: Option<HubModel>,
    before: BoundaryModel,
    hub_then: Option<HubModel>,
    after: BoundaryModel,
    session: u64,
    ready: bool,
    what: Seq<char>,
    request: u64,
    answer: Result<Submission, ReldexStatus>,
) -> bool {
    match (hub, hub_then) {
        (Some(hub), Some(hub_then)) => submits(
            submitted(hub, before, session, ready, what, PendingModel::caller(request)),
            hub_then,
            after,
            answer,
        ),
        _ => refused_argument(before, after, answer, "the hub pointer is null or unaligned"@),
    }
}

/// What an optional hub knows.
pub open spec fn hub_model(hub: Option<&mut ReldexHub>) -> Option<HubModel> {
    match hub {
        Some(hub) => Some(hub@),
        None => None,
    }
}

/// Records a request that names no result.
fn submit_simple(
    boundary: &mut Boundary,
    hub: Option<&mut ReldexHub>,
    session: ReldexSessionId,
    ready: bool,
    request: ReldexRequestId,
    what: &str,
    command: SessionCommand,
) -> (answer: Result<Submission, ReldexStatus>)
    ensures
        submits_simple(
            hub_model(hub),
            old(boundary)@,
            (match hub {
                Some(hub) => Some(final(hub)@),
                None => None,
            }),
            final(boundary)@,
            session,
            ready,
            what@,
            request,
            answer,
        ),
        answer matches Ok(submission) ==> submission.command == command,
{
    match hub {
        None => Err(boundary.set_last_argument_error("the hub pointer is null or unaligned")),
        Some(hub) => match hub.submit(boundary, session, ready, what, Pending::caller(request)) {
            Ok(request) => Ok(Submission { request, command }),
            Err(status) => Err(status),
        },
    }
}

/// Submits one statement. `deadline_ms` arms a time limit; `0` means none.
/// Nothing is accepted while the session is connecting or once it was closed.
pub fn reldex_session_execute(
    boundary: &mut Boundary,
    hub: Option<&mut ReldexHub>,
    session: ReldexSessionId,
    ready: bool,
    request: ReldexRequestId,
    sql: ReldexStr<'_>,
    deadline_ms: u64,
) -> (answer: Result<Submission, ReldexStatus>)
    requires
        sql.readable(),
    ensures
        old(boundary)@.in_waker ==> {
            &&& refused_in_waker(old(boundary)@, final(boundary)@, answer)
            &&& (match hub {
                Some(hub) => Some(final(hub)@),
                None => None,
            }) == hub_model(hub)
        },
        !old(boundary)@.in_waker && sql.text() is None ==> {
            &&& refused_argument(
                old(boundary)@,
                final(boundary)@,
                answer,
                "reldex_session_execute: `sql` is null or is not valid UTF-8"@,
            )
            &&& (match hub {
                Some(hub) => Some(final(hub)@),
                None => None,
            }) == hub_model(hub)
        },
        !old(boundary)@.in_waker && sql.text() is Some ==> submits_simple(
            hub_model(hub),
            old(boundary)@,
            (match hub {
                Some(hub) => Some(final(hub)@),
                None => None,
            }),
            final(boundary)@,
            session,
            ready,
            "execute"@,
            request,
            answer,
        ),
        answer matches Ok(submission) ==> (submission.command matches SessionCommand::Execute {
            sql: text,
            deadline_ms: limit,
        } && sql.text() == Some(text@) && limit == if deadline_ms > 0 {
            Some(deadline_ms)
        } else {
            None
        }),
{
    if boundary.refuse_reentrant() {
        return Err(ReldexStatus::Reentrant);
    }
    let text = match sql.as_str() {
        None => return Err(
            boundary.set_last_argument_error(
                "reldex_session_execute: `sql` is null or is not valid UTF-8",
            ),
        ),
        Some(text) => text,
    };
    let command = SessionCommand::Execute {
        sql: text.to_owned(),
        deadline_ms: if deadline_ms > 0 {
            Some(deadline_ms)
        } else {
            None
        },
    };
    submit_simple(boundary, hub, session, ready, request, "execute", command)
}

/// Submits a fetch of at most `max_rows` more rows of `result`.
pub fn reldex_session_fetch(
    boundary: &mut Boundary,
    hub: Option<&mut ReldexHub>,
    session: ReldexSessionId,
    ready: bool,
    request: ReldexRequestId,
    result: ReldexResultId,
    max_rows: u32,
) -> (answer: Result<Submission, ReldexStatus>)
    ensures
        old(boundary)@.in_waker ==> {
            &&& refused_in_waker(old(boundary)@, final(boundary)@, answer)
            &&& (match hub {
                Some(hub) => Some(final(hub)@),
                None => None,
            }) == hub_model(hub)
        },
        !old(boundary)@.in_waker && max_rows == 0 ==> {
            &&& refused_argument(
                old(boundary)@,
                final(boundary)@,
                answer,
                "reldex_session_fetch: `max_rows` must be above zero"@,
            )
            &&& (match hub {
                Some(hub) => Some(final(hub)@),
                None => None,
            }) == hub_model(hub)
        },
        !old(boundary)@.in_waker && max_rows > 0 && hub is None ==> refused_argument(
            old(boundary)@,
            final(boundary)@,
            answer,
            "the hub pointer is null or unaligned"@,
        ),
        !old(boundary)@.in_waker && max_rows > 0 && hub is Some ==> {
            let before = hub_model(hub)->0;
            &&& submits(
                submitted_on_result(
                    before,
                    old(boundary)@,
                    session,
                    ready,
                    "fetch"@,
                    result,
                    PendingModel {
                        caller: request,
                        result: Some(result),
                        columns: Some(before.sessions[session].results[result].columns),
                    },
                ),
                (match hub {
                Some(hub) => Some(final(hub)@),
                None => None,
            })->0,
                final(boundary)@,
                answer,
            )
            &&& answer matches Ok(submission) ==> submission.command == (SessionCommand::Fetch {
                result: before.sessions[session].results[result].id,
                max_rows,
            })
        },
{
    if boundary.refuse_reentrant() {
        return Err(ReldexStatus::Reentrant);
    }
    if max_rows == 0 {
        return Err(
            boundary.set_last_argument_error("reldex_session_fetch: `max_rows` must be above zero"),
        );
    }
    let hub = match hub {
        None => return Err(
            boundary.set_last_argument_error("the hub pointer is null or unaligned"),
        ),
        Some(hub) => hub,
    };
    let ghost before = hub@;
    match hub.open_result(boundary, session, ready, "fetch", result) {
        Err(status) => Err(status),
        Ok((id, columns)) => {
            let pending = Pending {
                caller: request,
                result: Some(result),
                columns: Some(columns),
            };
            let request: u64 = hub.begin_request(pending);
            assert(hub@ =~= submitted(
                before,
                old(boundary)@,
                session,
                ready,
                "fetch"@,
                pending@,
            ).hub);
            Ok(Submission { request, command: SessionCommand::Fetch { result: id, max_rows } })
        },
    }
}

/// Submits the release of a result set.
pub fn reldex_session_close_result(
    boundary: &mut Boundary,
    hub: Option<&mut ReldexHub>,
    session: ReldexSessionId,
    ready: bool,
    request: ReldexRequestId,
    result: ReldexResultId,
) -> (answer: Result<Submission, ReldexStatus>)
    ensures
        old(boundary)@.in_waker ==> {
            &&& refused_in_waker(old(boundary)@, final(boundary)@, answer)
            &&& (match hub {
                Some(hub) => Some(final(hub)@),
                None => None,
            }) == hub_model(hub)
        },
        !old(boundary)@.in_waker && hub is None ==> refused_argument(
            old(boundary)@,
            final(boundary)@,
            answer,
            "the hub pointer is null or unaligned"@,
        ),
        !old(boundary)@.in_waker && hub is Some ==> {
            let before = hub_model(hub)->0;
            &&& submits(
                submitted_on_result(
                    before,
                    old(boundary)@,
                    session,
                    ready,
                    "close_result"@,
                    result,
                    PendingModel { caller: request, result: Some(result), columns: None },
                ),
                (match hub {
                Some(hub) => Some(final(hub)@),
                None => None,
            })->0,
                final(boundary)@,
                answer,
            )
            &&& answer matches Ok(submission) ==> submission.command
                == (SessionCommand::CloseResult {
                result: before.sessions[session].results[result].id,
            })
        },
{
    if boundary.refuse_reentrant() {
        return Err(ReldexStatus::Reentrant);
    }
    let hub = match hub {
        None => return Err(
            boundary.set_last_argument_error("the hub pointer is null or unaligned"),
        ),
        Some(hub) => hub,
    };
    match hub.open_result(boundary, session, ready, "close_result", result) {
        Err(status) => Err(status),
        Ok((id, _)) => {
            let pending = Pending { caller: request, result: Some(result), columns: None };
            let request: u64 = hub.begin_request(pending);
            Ok(Submission { request, command: SessionCommand::CloseResult { result: id } })
        },
    }
}

/// What a caller's disposition means; nothing where it is none.
pub open spec fn disposition_of(disposition: i32) -> Option<Option<CloseDisposition>> {
    if disposition == ReldexCloseDisposition::Undecided as i32 {
        Some(None)
    } else if disposition == ReldexCloseDisposition::Commit as i32 {
        Some(Some(CloseDisposition::Commit))
    } else if disposition == ReldexCloseDisposition::Rollback as i32 {
        Some(Some(CloseDisposition::Rollback))
    } else {
        None
    }
}

/// Submits the close of a session, resolving its transaction first.
pub fn reldex_session_close(
    boundary: &mut Boundary,
    hub: Option<&mut ReldexHub>,
    session: ReldexSessionId,
    ready: bool,
    request: ReldexRequestId,
    disposition: i32,
) -> (answer: Result<Submission, ReldexStatus>)
    ensures
        old(boundary)@.in_waker ==> {
            &&& refused_in_waker(old(boundary)@, final(boundary)@, answer)
            &&& (match hub {
                Some(hub) => Some(final(hub)@),
                None => None,
            }) == hub_model(hub)
        },
        !old(boundary)@.in_waker && disposition_of(disposition) is None ==> {
            &&& refused_argument(
                old(boundary)@,
                final(boundary)@,
                answer,
                "reldex_session_close: `disposition` is not a ReldexCloseDisposition value"@,
            )
            &&& (match hub {
                Some(hub) => Some(final(hub)@),
                None => None,
            }) == hub_model(hub)
        },
        !old(boundary)@.in_waker && disposition_of(disposition) is Some ==> submits_simple(
            hub_model(hub),
            old(boundary)@,
            (match hub {
                Some(hub) => Some(final(hub)@),
                None => None,
            }),
            final(boundary)@,
            session,
            ready,
            "close"@,
            request,
            answer,
        ),
        answer matches Ok(submission) ==> submission.command == (SessionCommand::Close {
            disposition: disposition_of(disposition)->0,
        }),
{
    if boundary.refuse_reentrant() {
        return Err(ReldexStatus::Reentrant);
    }
    let disposition = if disposition == ReldexCloseDisposition::Undecided as i32 {
        None
    } else if disposition == ReldexCloseDisposition::Commit as i32 {
        Some(CloseDisposition::Commit)
    } else if disposition == ReldexCloseDisposition::Rollback as i32 {
        Some(CloseDisposition::Rollback)
    } else {
        return Err(
            boundary.set_last_argument_error(
                "reldex_session_close: `disposition` is not a ReldexCloseDisposition value",
            ),
        );
    };
    submit_simple(
        boundary,
        hub,
        session,
        ready,
        request,
        "close",
        SessionCommand::Close { disposition },
    )
}

/// Submits the commit of the session's current transaction.
pub fn reldex_session_commit(
    boundary: &mut Boundary,
    hub: Option<&mut ReldexHub>,
    session: ReldexSessionId,
    ready: bool,
    request: ReldexRequestId,
) -> (answer: Result<Submission, ReldexStatus>)
    ensures
        old(boundary)@.in_waker ==> {
            &&& refused_in_waker(old(boundary)@, final(boundary)@, answer)
            &&& (match hub {
                Some(hub) => Some(final(hub)@),
                None => None,
            }) == hub_model(hub)
        },
        !old(boundary)@.in_waker ==> submits_simple(
            hub_model(hub),
            old(boundary)@,
            (match hub {
                Some(hub) => Some(final(hub)@),
                None => None,
            }),
            final(boundary)@,
            session,
            ready,
            "commit"@,
            request,
            answer,
        ),
        answer matches Ok(submission) ==> submission.command == SessionCommand::Commit,
{
    if boundary.refuse_reentrant() {
        return Err(ReldexStatus::Reentrant);
    }
    submit_simple(boundary, hub, session, ready, request, "commit", SessionCommand::Commit)
}

/// Submits the rollback of the session's current transaction.
pub fn reldex_session_rollback(
    boundary: &mut Boundary,
    hub: Option<&mut ReldexHub>,
    session: ReldexSessionId,
    ready: bool,
    request: ReldexRequestId,
) -> (answer: Result<Submission, ReldexStatus>)
    ensures
        old(boundary)@.in_waker ==> {
            &&& refused_in_waker(old(boundary)@, final(boundary)@, answer)
            &&& (match hub {
                Some(hub) => Some(final(hub)@),
                None => None,
            }) == hub_model(hub)
        },
        !old(boundary)@.in_waker ==> submits_simple(
            hub_model(hub),
            old(boundary)@,
            (match hub {
                Some(hub) => Some(final(hub)@),
                None => None,
            }),
            final(boundary)@,
            session,
            ready,
            "rollback"@,
            request,
            answer,
        ),
        answer matches Ok(submission) ==> submission.command == SessionCommand::Rollback,
{
    if boundary.refuse_reentrant() {
        return Err(ReldexStatus::Reentrant);
    }
    submit_simple(boundary, hub, session, ready, request, "rollback", SessionCommand::Rollback)
}

/// Submits a round trip with no statement.
pub fn reldex_session_ping(
    boundary: &mut Boundary,
    hub: Option<&mut ReldexHub>,
    session: ReldexSessionId,
    ready: bool,
    request: ReldexRequestId,
) -> (answer: Result<Submission, ReldexStatus>)
    ensures
        old(boundary)@.in_waker ==> {
            &&& refused_in_waker(old(boundary)@, final(boundary)@, answer)
            &&& (match hub {
                Some(hub) => Some(final(hub)@),
                None => None,
            }) == hub_model(hub)
        },
        !old(boundary)@.in_waker ==> submits_simple(
            hub_model(hub),
            old(boundary)@,
            (match hub {
                Some(hub) => Some(final(hub)@),
                None => None,
            }),
            final(boundary)@,
            session,
            ready,
            "ping"@,
            request,
            answer,
        ),
        answer matches Ok(submission) ==> submission.command == SessionCommand::Ping,
{
    if boundary.refuse_reentrant() {
        return Err(ReldexStatus::Reentrant);
    }
    submit_simple(boundary, hub, session, ready, request, "ping", SessionCommand::Ping)
}

/// What a caller is told of a savepoint name that cannot be used: it is no
/// text, or the driver says what is wrong with it.
pub open spec fn savepoint_error(
    function: Seq<char>,
    name: ReldexStr<'_>,
    checked: Result<(), String>,
) -> ErrorModel {
    if name.text() is None {
        ErrorModel::argument(function + ": `name` is null or is not valid UTF-8"@)
    } else {
        ErrorModel::plain(ReldexErrorKind::Configuration, checked->Err_0@)
    }
}

/// Reads a savepoint name.
fn savepoint_name(
    boundary: &mut Boundary,
    name: ReldexStr<'_>,
    checked: Result<(), String>,
    function: &str,
) -> (text: Result<String, ReldexStatus>)
    requires
        name.readable(),
    ensures
        match text {
            Ok(text) => {
                &&& checked is Ok
                &&& name.text() == Some(text@)
                &&& final(boundary)@ == old(boundary)@
            },
            Err(status) => {
                &&& !(name.text() is Some && checked is Ok)
                &&& status == ReldexStatus::InvalidArgument
                &&& final(boundary)@ == old(boundary)@.failed(
                    savepoint_error(function@, name, checked),
                )
            },
        },
{
    let text = match name.as_str() {
        None => {
            let mut message = String::from_str(function);
            message.append(": `name` is null or is not valid UTF-8");
            return Err(boundary.set_last_argument_error(message.as_str()));
        },
        Some(text) => text,
    };
    match checked {
        Ok(_) => Ok(text.to_owned()),
        Err(message) => {
            boundary.set_last_error(DbError::new(ErrorKind::Configuration, message));
            Err(ReldexStatus::InvalidArgument)
        },
    }
}

/// Submits a savepoint in the session's current transaction. `checked` is what the driver says of the name.
pub fn reldex_session_savepoint(
    boundary: &mut Boundary,
    hub: Option<&mut ReldexHub>,
    session: ReldexSessionId,
    ready: bool,
    request: ReldexRequestId,
    name: ReldexStr<'_>,
    checked: Result<(), String>,
) -> (answer: Result<Submission, ReldexStatus>)
    requires
        name.readable(),
    ensures
        old(boundary)@.in_waker ==> {
            &&& refused_in_waker(old(boundary)@, final(boundary)@, answer)
            &&& (match hub {
                Some(hub) => Some(final(hub)@),
                None => None,
            }) == hub_model(hub)
        },
        !old(boundary)@.in_waker && !(name.text() is Some && checked is Ok) ==> {
            &&& answer == Err::<Submission, _>(ReldexStatus::InvalidArgument)
            &&& final(boundary)@ == old(boundary)@.failed(
                savepoint_error("reldex_session_savepoint"@, name, checked),
            )
            &&& (match hub {
                Some(hub) => Some(final(hub)@),
                None => None,
            }) == hub_model(hub)
        },
        !old(boundary)@.in_waker && name.text() is Some && checked is Ok ==> submits_simple(
            hub_model(hub),
            old(boundary)@,
            (match hub {
                Some(hub) => Some(final(hub)@),
                None => None,
            }),
            final(boundary)@,
            session,
            ready,
            "savepoint"@,
            request,
            answer,
        ),
        answer matches Ok(submission) ==> (submission.command matches SessionCommand::Savepoint {
            name: text,
        } && name.text() == Some(text@)),
{
    if boundary.refuse_reentrant() {
        return Err(ReldexStatus::Reentrant);
    }
    let name = match savepoint_name(boundary, name, checked, "reldex_session_savepoint") {
        Err(status) => return Err(status),
        Ok(name) => name,
    };
    submit_simple(
        boundary,
        hub,
        session,
        ready,
        request,
        "savepoint",
        SessionCommand::Savepoint { name },
    )
}

/// Submits the rollback of the session's current transaction to a savepoint. `checked` is what the driver says of the name.
pub fn reldex_session_rollback_to_savepoint(
    boundary: &mut Boundary,
    hub: Option<&mut ReldexHub>,
    session: ReldexSessionId,
    ready: bool,
    request: ReldexRequestId,
    name: ReldexStr<'_>,
    checked: Result<(), String>,
) -> (answer: Result<Submission, ReldexStatus>)
    requires
        name.readable(),
    ensures
        old(boundary)@.in_waker ==> {
            &&& refused_in_waker(old(boundary)@, final(boundary)@, answer)
            &&& (match hub {
                Some(hub) => Some(final(hub)@),
                None => None,
            }) == hub_model(hub)
        },
        !old(boundary)@.in_waker && !(name.text() is Some && checked is Ok) ==> {
            &&& answer == Err::<Submission, _>(ReldexStatus::InvalidArgument)
            &&& final(boundary)@ == old(boundary)@.failed(
                savepoint_error("reldex_session_rollback_to_savepoint"@, name, checked),
            )
            &&& (match hub {
                Some(hub) => Some(final(hub)@),
                None => None,
            }) == hub_model(hub)
        },
        !old(boundary)@.in_waker && name.text() is Some && checked is Ok ==> submits_simple(
            hub_model(hub),
            old(boundary)@,
            (match hub {
                Some(hub) => Some(final(hub)@),
                None => None,
            }),
            final(boundary)@,
            session,
            ready,
            "rollback_to_savepoint"@,
            request,
            answer,
        ),
        answer matches Ok(submission) ==> (submission.command matches SessionCommand::RollbackToSavepoint {
            name: text,
        } && name.text() == Some(text@)),
{
    if boundary.refuse_reentrant() {
        return Err(ReldexStatus::Reentrant);
    }
    let name = match savepoint_name(boundary, name, checked, "reldex_session_rollback_to_savepoint") {
        Err(status) => return Err(status),
        Ok(name) => name,
    };
    submit_simple(
        boundary,
        hub,
        session,
        ready,
        request,
        "rollback_to_savepoint",
        SessionCommand::RollbackToSavepoint { name },
    )
}

/// What a caller's server output mode means, or what is wrong with it.
pub open spec fn output_mode(mode: i32, buffer_bytes: u64) -> Result<
    ServerOutputSetting,
    Seq<char>,
> {
    if mode == ReldexServerOutputMode::Disabled as i32 {
        Ok(ServerOutputSetting::Disabled)
    } else if mode == ReldexServerOutputMode::EnabledUnlimited as i32 {
        Ok(ServerOutputSetting::EnabledUnlimited)
    } else if mode == ReldexServerOutputMode::EnabledBytes as i32 {
        if buffer_bytes > u32::MAX {
            Err("reldex_session_set_server_output: `buffer_bytes` does not fit in 32 bits"@)
        } else if buffer_bytes == 0 {
            Err(
                "reldex_session_set_server_output: `buffer_bytes` must be above zero for RELDEX_SERVER_OUTPUT_MODE_ENABLED_BYTES"@,
            )
        } else {
            Ok(ServerOutputSetting::EnabledBytes(buffer_bytes as u32))
        }
    } else {
        Err(
            "reldex_session_set_server_output: `mode` is not a ReldexServerOutputMode value this build accepts as input"@,
        )
    }
}

/// Submits a change of the session's server output collection.
pub fn reldex_session_set_server_output(
    boundary: &mut Boundary,
    hub: Option<&mut ReldexHub>,
    session: ReldexSessionId,
    ready: bool,
    request: ReldexRequestId,
    mode: i32,
    buffer_bytes: u64,
) -> (answer: Result<Submission, ReldexStatus>)
    ensures
        old(boundary)@.in_waker ==> {
            &&& refused_in_waker(old(boundary)@, final(boundary)@, answer)
            &&& (match hub {
                Some(hub) => Some(final(hub)@),
                None => None,
            }) == hub_model(hub)
        },
        !old(boundary)@.in_waker ==> match output_mode(mode, buffer_bytes) {
            Err(message) => {
                &&& refused_argument(old(boundary)@, final(boundary)@, answer, message)
                &&& (match hub {
                Some(hub) => Some(final(hub)@),
                None => None,
            }) == hub_model(hub)
            },
            Ok(setting) => {
                &&& submits_simple(
                    hub_model(hub),
                    old(boundary)@,
                    (match hub {
                Some(hub) => Some(final(hub)@),
                None => None,
            }),
                    final(boundary)@,
                    session,
                    ready,
                    "set_server_output"@,
                    request,
                    answer,
                )
                &&& answer matches Ok(submission) ==> submission.command
                    == (SessionCommand::SetServerOutput { setting })
            },
        },
{
    if boundary.refuse_reentrant() {
        return Err(ReldexStatus::Reentrant);
    }
    let setting = if mode == ReldexServerOutputMode::Disabled as i32 {
        ServerOutputSetting::Disabled
    } else if mode == ReldexServerOutputMode::EnabledUnlimited as i32 {
        ServerOutputSetting::EnabledUnlimited
    } else if mode == ReldexServerOutputMode::EnabledBytes as i32 {
        if buffer_bytes > u32::MAX as u64 {
            return Err(
                boundary.set_last_argument_error(
                    "reldex_session_set_server_output: `buffer_bytes` does not fit in 32 bits",
                ),
            );
        }
        if buffer_bytes == 0 {
            return Err(
                boundary.set_last_argument_error(
                    "reldex_session_set_server_output: `buffer_bytes` must be above zero for RELDEX_SERVER_OUTPUT_MODE_ENABLED_BYTES",
                ),
            );
        }
        ServerOutputSetting::EnabledBytes(buffer_bytes as u32)
    } else {
        return Err(
            boundary.set_last_argument_error(
                "reldex_session_set_server_output: `mode` is not a ReldexServerOutputMode value this build accepts as input",
            ),
        );
    };
    submit_simple(
        boundary,
        hub,
        session,
        ready,
        request,
        "set_server_output",
        SessionCommand::SetServerOutput { setting },
    )
}

/// Ends a submission: `sent` is whether the session took the request. One it
/// refuses was never accepted, and no reply will come for it.
pub fn finish_submit(
    boundary: &mut Boundary,
    hub: &mut ReldexHub,
    request: u64,
    sent: Result<(), DbError>,
) -> (status: ReldexStatus)
    ensures
        match sent {
            Ok(_) => {
                &&& status == ReldexStatus::Okay
                &&& final(hub)@ == old(hub)@
                &&& final(boundary)@ == old(boundary)@
            },
            Err(error) => {
                &&& status == ReldexStatus::Error
                &&& final(hub)@ == old(hub)@.settled(request)
                &&& final(boundary)@ == old(boundary)@.failed(error@)
            },
        },
{
    match sent {
        Ok(_) => ReldexStatus::Okay,
        Err(error) => {
            hub.abandon_request(request);
            boundary.set_last_error(error);
            ReldexStatus::Error
        },
    }
}

/// Ends the submission of a close. One that the session took ends the lifetime
/// of every column description it handed out.
pub fn finish_close(
    boundary: &mut Boundary,
    hub: &mut ReldexHub,
    session: ReldexSessionId,
    request: u64,
    sent: Result<(), DbError>,
) -> (status: ReldexStatus)
    ensures
        match sent {
            Ok(_) => {
                &&& status == ReldexStatus::Okay
                &&& final(boundary)@ == old(boundary)@
                &&& final(hub)@ == if old(hub)@.sessions.contains_key(session) {
                    old(hub)@.with_session(
                        session,
                        SessionModel { caller_ended: true, ..old(hub)@.sessions[session] },
                    )
                } else {
                    old(hub)@
                }
            },
            Err(error) => {
                &&& status == ReldexStatus::Error
                &&& final(hub)@ == old(hub)@.settled(request)
                &&& final(boundary)@ == old(boundary)@.failed(error@)
            },
        },
{
    let accepted = sent.is_ok();
    let status = finish_submit(boundary, hub, request, sent);
    if accepted {
        if let Some(mut entry) = hub.sessions.remove(session) {
            entry.caller_ended = true;
            hub.sessions.insert(session, entry);
            assert(hub@.sessions =~= old(hub)@.sessions.insert(
                session,
                SessionModel { caller_ended: true, ..old(hub)@.sessions[session] },
            ));
        } else {
            assert(hub@.sessions =~= old(hub)@.sessions);
        }
    }
    status
}

/// A request that is refused says why, and one that is accepted leaves the last
/// error alone.
pub proof fn a_refused_request_says_why(
    hub: HubModel,
    boundary: BoundaryModel,
    session: u64,
    ready: bool,
    what: Seq<char>,
    result: u64,
    pending: PendingModel,
)
    ensures
        ({
            let made = submitted(hub, boundary, session, ready, what, pending);
            let on_result = submitted_on_result(
                hub,
                boundary,
                session,
                ready,
                what,
                result,
                pending,
            );
            &&& made.outcome is Err ==> made.boundary.last_error is Some
            &&& made.outcome is Ok ==> made.boundary == boundary
            &&& on_result.outcome is Err ==> on_result.boundary.last_error is Some
            &&& on_result.outcome is Ok ==> on_result.boundary == boundary
        }),
{
}

/// A request that the session refuses leaves no request behind that still waits
/// for a reply.
pub proof fn refused_submission_waits_for_nothing(
    hub: HubModel,
    boundary: BoundaryModel,
    session: u64,
    ready: bool,
    what: Seq<char>,
    pending: PendingModel,
)
    requires
        hub.ids_below_next(),
        submitted(hub, boundary, session, ready, what, pending).outcome is Ok,
    ensures
        submitted(hub, boundary, session, ready, what, pending).hub.settled(
            hub.next_request,
        ).pending == hub.pending,
{
    crate::hub::refused_request_leaves_nothing(hub, pending);
}

/// A request that is refused here is not recorded, and one that is recorded
/// waits under its own id for the caller's.
pub proof fn accepted_requests_wait_under_their_id(
    hub: HubModel,
    boundary: BoundaryModel,
    session: u64,
    ready: bool,
    what: Seq<char>,
    pending: PendingModel,
)
    ensures
        ({
            let made = submitted(hub, boundary, session, ready, what, pending);
            match made.outcome {
                Ok(request) => {
                    &&& made.hub.pending.contains_key(request)
                    &&& made.hub.pending[request] == pending
                    &&& made.boundary == boundary
                },
                Err(status) => {
                    &&& made.hub.pending == hub.pending
                    &&& made.boundary.last_error is Some
                    &&& status == ReldexStatus::NotFound || status == ReldexStatus::InvalidState
                },
            }
        }),
{
}

/// A request, accepted or refused, leaves the ids of its hub in order, until they
/// run out.
pub proof fn a_request_keeps_ids_in_order(
    hub: HubModel,
    boundary: BoundaryModel,
    session: u64,
    ready: bool,
    what: Seq<char>,
    pending: PendingModel,
)
    requires
        hub.ids_are_in_order(),
        hub.next_request < u64::MAX,
    ensures
        submitted(hub, boundary, session, ready, what, pending).hub.ids_are_in_order(),
{
    let made = submitted(hub, boundary, session, ready, what, pending).hub;
    assert forall|id: u64| #[trigger] made.sessions.contains_key(id) implies made.sessions[id].keys_below_next() by {
        assert(hub.sessions.contains_key(id));
    }
}

/// Once a session's end has been drained, every request that names it is
/// answered with not found.
pub proof fn a_retired_session_is_not_found(
    hub: HubModel,
    event: SessionEvent,
    facts: SessionFacts,
    boundary: BoundaryModel,
    ready: bool,
    what: Seq<char>,
    pending: PendingModel,
)
    requires
        event is Terminal,
    ensures
        submitted(
            hub_after(hub, event, facts),
            boundary,
            event.of_session(),
            ready,
            what,
            pending,
        ).outcome == Err::<u64, ReldexStatus>(ReldexStatus::NotFound),
{
}

/// What a caller is told who asks for a result that is not open.
pub open spec fn no_open_result(function: Seq<char>, session: u64, result: u64) -> ErrorModel {
    ErrorModel::internal(
        "reldex-ffi: "@ + function + ": session "@ + decimal(session as nat)
            + " has no open result "@ + decimal(result as nat),
    )
}

/// Records that a session does not have a result open.
fn set_no_open_result(boundary: &mut Boundary, function: &str, session: u64, result: u64)
    ensures
        final(boundary)@ == old(boundary)@.failed(no_open_result(function@, session, result)),
{
    let mut text = String::from_str("reldex-ffi: ");
    text.append(function);
    text.append(": session ");
    push_decimal(&mut text, session);
    text.append(" has no open result ");
    push_decimal(&mut text, result);
    boundary.set_last_error(DbError::internal(text));
}

/// How many columns the open result `result` has. Where that cannot be said,
/// the answer is zero and the last error says why.
pub fn reldex_session_result_column_count(
    boundary: &mut Boundary,
    hub: Option<&ReldexHub>,
    session: ReldexSessionId,
    result: ReldexResultId,
) -> (count: usize)
    ensures
        old(boundary)@.in_waker ==> count == 0 && final(boundary)@ == old(boundary)@.refused(),
        !old(boundary)@.in_waker ==> match hub {
            None => count == 0 && final(boundary)@ == without_hub(old(boundary)@),
            Some(hub) => if !hub@.sessions.contains_key(session) {
                &&& count == 0
                &&& final(boundary)@ == old(boundary)@.failed(unknown_session(session))
            } else if !hub@.sessions[session].results.contains_key(result) {
                &&& count == 0
                &&& final(boundary)@ == old(boundary)@.failed(
                    no_open_result("reldex_session_result_column_count"@, session, result),
                )
            } else {
                &&& count == hub@.sessions[session].results[result].columns.len()
                &&& final(boundary)@ == old(boundary)@
            },
        },
{
    if boundary.refuse_reentrant() {
        return 0;
    }
    let hub = match hub {
        None => {
            boundary.set_last_argument_error("the hub pointer is null or unaligned");
            return 0;
        },
        Some(hub) => hub,
    };
    match hub.sessions.get(session) {
        None => {
            set_unknown_session(boundary, session);
            0
        },
        Some(entry) => match entry.result(result) {
            Some((_, columns)) => columns.len(),
            None => {
                set_no_open_result(
                    boundary,
                    "reldex_session_result_column_count",
                    session,
                    result,
                );
                0
            },
        },
    }
}

/// What a caller is told who asks for a column a result does not have.
pub open spec fn no_result_column(column: usize, count: nat) -> ErrorModel {
    ErrorModel::internal(
        "reldex-ffi: reldex_session_result_column: column "@ + decimal(column as nat)
            + " is out of range; the result has "@ + decimal(count),
    )
}

/// Describes column `column` of the open result `result`, without a batch. `out`
/// is how many bytes the caller's struct takes, or nothing where it was refused.
pub fn reldex_session_result_column<'a>(
    boundary: &mut Boundary,
    hub: Option<&'a ReldexHub>,
    session: ReldexSessionId,
    result: ReldexResultId,
    column: usize,
    out: Option<u32>,
) -> (info: Result<ReldexColumnInfo<'a>, ReldexStatus>)
    ensures
        old(boundary)@.in_waker ==> {
            &&& info == Err::<ReldexColumnInfo<'a>, _>(ReldexStatus::Reentrant)
            &&& final(boundary)@ == old(boundary)@.refused()
        },
        !old(boundary)@.in_waker ==> match hub {
            None => {
                &&& info == Err::<ReldexColumnInfo<'a>, _>(ReldexStatus::InvalidArgument)
                &&& final(boundary)@ == without_hub(old(boundary)@)
            },
            Some(hub) => if !hub@.sessions.contains_key(session) {
                &&& info == Err::<ReldexColumnInfo<'a>, _>(ReldexStatus::NotFound)
                &&& final(boundary)@ == old(boundary)@.failed(unknown_session(session))
            } else if !hub@.sessions[session].results.contains_key(result) {
                &&& info == Err::<ReldexColumnInfo<'a>, _>(ReldexStatus::NotFound)
                &&& final(boundary)@ == old(boundary)@.failed(
                    no_open_result("reldex_session_result_column"@, session, result),
                )
            } else {
                let columns = hub@.sessions[session].results[result].columns;
                if column >= columns.len() {
                    &&& info == Err::<ReldexColumnInfo<'a>, _>(ReldexStatus::NotFound)
                    &&& final(boundary)@ == old(boundary)@.failed(
                        no_result_column(column, columns.len()),
                    )
                } else {
                    match out {
                        None => {
                            &&& info == Err::<ReldexColumnInfo<'a>, _>(
                                ReldexStatus::InvalidArgument,
                            )
                            &&& final(boundary)@ == old(boundary)@.argument_error(
                                "reldex_session_result_column: `out` is null, unaligned, or too small"@,
                            )
                        },
                        Some(valid) => {
                            &&& info matches Ok(info) && info.struct_size == valid
                                && info.describes(
                                columns[column as int].declared,
                                Some(columns[column as int]),
                            )
                            &&& final(boundary)@ == old(boundary)@
                        },
                    }
                }
            },
        },
{
    if boundary.refuse_reentrant() {
        return Err(ReldexStatus::Reentrant);
    }
    let hub = match hub {
        None => return Err(
            boundary.set_last_argument_error("the hub pointer is null or unaligned"),
        ),
        Some(hub) => hub,
    };
    let entry = match hub.sessions.get(session) {
        None => return Err(set_unknown_session(boundary, session)),
        Some(entry) => entry,
    };
    let open = match entry.results.get(result) {
        None => {
            set_no_open_result(boundary, "reldex_session_result_column", session, result);
            return Err(ReldexStatus::NotFound);
        },
        Some(open) => open,
    };
    let info = match open.columns.info(column) {
        None => {
            let mut text = String::from_str("reldex-ffi: reldex_session_result_column: column ");
            push_decimal(&mut text, column as u64);
            text.append(" is out of range; the result has ");
            push_decimal(&mut text, open.columns.len() as u64);
            boundary.set_last_error(DbError::internal(text));
            return Err(ReldexStatus::NotFound);
        },
        Some(info) => info,
    };
    match out {
        None => Err(
            boundary.set_last_argument_error(
                "reldex_session_result_column: `out` is null, unaligned, or too small",
            ),
        ),
        Some(valid) => Ok(ReldexColumnInfo { struct_size: valid, ..info }),
    }
}

/// A close carries the decision its caller made and no other: it commits for
/// the number of a commit alone, rolls back for the number of a rollback alone,
/// and leaves the decision open for the number of none alone. Any other number
/// is refused.
pub proof fn a_close_does_what_the_caller_decided(
    boundary: &mut Boundary,
    hub: Option<&mut ReldexHub>,
    session: ReldexSessionId,
    ready: bool,
    request: ReldexRequestId,
    disposition: i32,
    answer: Result<Submission, ReldexStatus>,
)
    requires
        call_ensures(
            reldex_session_close,
            (boundary, hub, session, ready, request, disposition),
            answer,
        ),
    ensures
        answer matches Ok(submission) ==> {
            &&& submission.command matches SessionCommand::Close { disposition: sent }
            &&& sent == Some(CloseDisposition::Commit) <==> disposition == 2
            &&& sent == Some(CloseDisposition::Rollback) <==> disposition == 3
            &&& sent is None <==> disposition == 1
        },
        !(1 <= disposition <= 3) ==> answer is Err,
{
}

/// A statement is sent as its caller wrote it, under the caller's time limit;
/// a limit of zero is none.
pub proof fn a_statement_is_sent_as_written(
    boundary: &mut Boundary,
    hub: Option<&mut ReldexHub>,
    session: ReldexSessionId,
    ready: bool,
    request: ReldexRequestId,
    sql: ReldexStr<'_>,
    deadline_ms: u64,
    answer: Result<Submission, ReldexStatus>,
)
    requires
        call_ensures(
            reldex_session_execute,
            (boundary, hub, session, ready, request, sql, deadline_ms),
            answer,
        ),
    ensures
        answer matches Ok(submission) ==> {
            &&& submission.command matches SessionCommand::Execute { sql: sent, deadline_ms: limit }
            &&& Some(sent@) == sql.text()
            &&& limit is Some <==> deadline_ms != 0
            &&& limit matches Some(limit) ==> limit == deadline_ms
        },
        sql.text() is None ==> answer is Err,
{
}

/// A fetch and a release name the result that the caller's key stands for, by
/// the core's own id; a fetch asks for the caller's number of rows, which is
/// above zero. What waits for their replies is the caller's key.
pub proof fn a_result_is_named_by_its_key(
    boundary: &mut Boundary,
    hub: Option<&mut ReldexHub>,
    session: ReldexSessionId,
    ready: bool,
    request: ReldexRequestId,
    result: ReldexResultId,
    max_rows: u32,
    fetch: Result<Submission, ReldexStatus>,
    release: Result<Submission, ReldexStatus>,
)
    ensures
        call_ensures(
            reldex_session_fetch,
            (boundary, hub, session, ready, request, result, max_rows),
            fetch,
        ) ==> (fetch matches Ok(submission) ==> {
            &&& hub is Some
            &&& max_rows > 0
            &&& submission.command matches SessionCommand::Fetch { result: id, max_rows: rows }
            &&& hub_model(hub)->0.sessions[session].results.contains_key(result)
            &&& hub_model(hub)->0.sessions[session].results[result].id == id
            &&& rows == max_rows
        }),
        call_ensures(
            reldex_session_close_result,
            (boundary, hub, session, ready, request, result),
            release,
        ) ==> (release matches Ok(submission) ==> {
            &&& hub is Some
            &&& submission.command matches SessionCommand::CloseResult { result: id }
            &&& hub_model(hub)->0.sessions[session].results.contains_key(result)
            &&& hub_model(hub)->0.sessions[session].results[result].id == id
        }),
{
}

/// A call that commits sends a commit, one that rolls back a rollback, and one
/// that pings a ping: nothing else is ever sent for them.
pub proof fn a_transaction_call_sends_what_it_is_named_after(
    boundary: &mut Boundary,
    hub: Option<&mut ReldexHub>,
    session: ReldexSessionId,
    ready: bool,
    request: ReldexRequestId,
    answer: Result<Submission, ReldexStatus>,
)
    ensures
        call_ensures(reldex_session_commit, (boundary, hub, session, ready, request), answer) ==> (
        answer matches Ok(submission) ==> submission.command is Commit),
        call_ensures(reldex_session_rollback, (boundary, hub, session, ready, request), answer)
            ==> (answer matches Ok(submission) ==> submission.command is Rollback),
        call_ensures(reldex_session_ping, (boundary, hub, session, ready, request), answer) ==> (
        answer matches Ok(submission) ==> submission.command is Ping),
{
}

/// A savepoint is set, and rolled back to, under the name its caller gave, and
/// only where the driver takes that name.
pub proof fn a_savepoint_keeps_its_name(
    boundary: &mut Boundary,
    hub: Option<&mut ReldexHub>,
    session: ReldexSessionId,
    ready: bool,
    request: ReldexRequestId,
    name: ReldexStr<'_>,
    checked: Result<(), String>,
    answer: Result<Submission, ReldexStatus>,
)
    ensures
        call_ensures(
            reldex_session_savepoint,
            (boundary, hub, session, ready, request, name, checked),
            answer,
        ) ==> (answer matches Ok(submission) ==> {
            &&& checked is Ok
            &&& submission.command matches SessionCommand::Savepoint { name: sent }
            &&& Some(sent@) == name.text()
        }),
        call_ensures(
            reldex_session_rollback_to_savepoint,
            (boundary, hub, session, ready, request, name, checked),
            answer,
        ) ==> (answer matches Ok(submission) ==> {
            &&& checked is Ok
            &&& submission.command matches SessionCommand::RollbackToSavepoint { name: sent }
            &&& Some(sent@) == name.text()
        }),
{
}

/// Server output is turned off for the number of off alone, and on with the
/// caller's buffer otherwise: without a limit, or with the bytes it named, which
/// are above zero and fit in 32 bits.
pub proof fn server_output_is_set_as_asked(
    boundary: &mut Boundary,
    hub: Option<&mut ReldexHub>,
    session: ReldexSessionId,
    ready: bool,
    request: ReldexRequestId,
    mode: i32,
    buffer_bytes: u64,
    answer: Result<Submission, ReldexStatus>,
)
    requires
        call_ensures(
            reldex_session_set_server_output,
            (boundary, hub, session, ready, request, mode, buffer_bytes),
            answer,
        ),
    ensures
        answer matches Ok(submission) ==> {
            &&& submission.command matches SessionCommand::SetServerOutput { setting }
            &&& setting is Disabled <==> mode == 1
            &&& setting is EnabledUnlimited <==> mode == 2
            &&& setting is EnabledBytes <==> mode == 3
            &&& setting matches ServerOutputSetting::EnabledBytes(bytes) ==> bytes == buffer_bytes
                && bytes > 0
        },
        mode == 3 && (buffer_bytes == 0 || buffer_bytes > 0xffff_ffff) ==> answer is Err,
        !(1 <= mode <= 3) ==> answer is Err,
{
}

/// A request is accepted exactly where its session is on the hub and is open, or
/// is handed out for the first time; where it names a result, that has to be
/// open too. A refusal says which of these it was.
pub proof fn a_request_is_accepted_by_an_open_session_only(
    hub: HubModel,
    boundary: BoundaryModel,
    session: u64,
    ready: bool,
    what: Seq<char>,
    result: u64,
    pending: PendingModel,
)
    ensures
        ({
            let made = submitted(hub, boundary, session, ready, what, pending);
            let on_result = submitted_on_result(
                hub,
                boundary,
                session,
                ready,
                what,
                result,
                pending,
            );
            let there = hub.sessions.contains_key(session);
            let entry = hub.sessions[session];
            let open = (entry.phase is Open && entry.connected) || (entry.phase is Opening
                && ready);
            &&& made.outcome is Ok <==> there && open
            &&& made.outcome == Err::<u64, _>(ReldexStatus::NotFound) <==> !there
            &&& made.outcome == Err::<u64, _>(ReldexStatus::InvalidState) <==> there && !open
            &&& on_result.outcome is Ok <==> there && open && entry.results.contains_key(result)
            &&& on_result.outcome == Err::<u64, _>(ReldexStatus::NotFound) <==> !there || (open
                && !entry.results.contains_key(result))
            &&& on_result.outcome == Err::<u64, _>(ReldexStatus::InvalidState) <==> there && !open
            &&& on_result.outcome is Ok ==> on_result.hub.pending[on_result.outcome->Ok_0]
                == pending
            &&& made.outcome is Ok ==> made.outcome == Ok::<_, ReldexStatus>(hub.next_request)
                && made.hub.next_request != hub.next_request
        }),
{
}

/// An accepted request changes nothing of its hub but that it waits, and that a
/// session handed out for the first time is open from then on: no result goes,
/// no other session changes, and no other request.
pub proof fn an_accepted_request_leaves_the_rest_alone(
    hub: HubModel,
    boundary: BoundaryModel,
    session: u64,
    ready: bool,
    what: Seq<char>,
    pending: PendingModel,
    other: u64,
)
    requires
        submitted(hub, boundary, session, ready, what, pending).outcome is Ok,
    ensures
        ({
            let then = submitted(hub, boundary, session, ready, what, pending).hub;
            let before = hub.sessions[session];
            let after = then.sessions[session];
            &&& after.phase is Open
            &&& after.connected
            &&& after.results == before.results
            &&& after.next_result == before.next_result
            &&& after.caller_ended == before.caller_ended
            &&& after.abandoned == before.abandoned
            &&& then.sessions.contains_key(session)
            &&& other != session ==> {
                &&& then.sessions.contains_key(other) <==> hub.sessions.contains_key(other)
                &&& then.sessions[other] == hub.sessions[other]
            }
            &&& other != hub.next_request ==> {
                &&& then.pending.contains_key(other) <==> hub.pending.contains_key(other)
                &&& then.pending[other] == hub.pending[other]
            }
            &&& then.orphaned == hub.orphaned
        }),
{
}

/// The columns a caller is shown of a result without fetching are the ones its
/// statement described: as many, and each as it was.
pub proof fn a_result_is_described_without_fetching(
    boundary: &mut Boundary,
    hub: &ReldexHub,
    session: ReldexSessionId,
    result: ReldexResultId,
    count: usize,
)
    requires
        !old(boundary)@.in_waker,
        hub@.sessions.contains_key(session),
        hub@.sessions[session].results.contains_key(result),
        call_ensures(
            reldex_session_result_column_count,
            (boundary, Some(hub), session, result),
            count,
        ),
    ensures
        count == hub@.sessions[session].results[result].columns.len(),
        final(boundary)@ == old(boundary)@,
{
}

/// A request that the session did not take waits for nothing and fails with what
/// the session said; one that it took goes on waiting. A close that was taken is
/// remembered as the caller's own.
pub proof fn a_request_is_sent_or_forgotten(
    boundary: &mut Boundary,
    hub: &mut ReldexHub,
    session: ReldexSessionId,
    request: u64,
    sent: Result<(), DbError>,
    status: ReldexStatus,
)
    ensures
        call_ensures(finish_submit, (boundary, hub, request, sent), status) || call_ensures(
            finish_close,
            (boundary, hub, session, request, sent),
            status,
        ) ==> {
            &&& status == ReldexStatus::Okay <==> sent is Ok
            &&& sent is Ok ==> final(hub)@.pending == old(hub)@.pending && final(boundary)@
                == old(boundary)@
            &&& sent matches Err(error) ==> {
                &&& status == ReldexStatus::Error
                &&& !final(hub)@.pending.contains_key(request)
                &&& final(hub)@.sessions == old(hub)@.sessions
                &&& final(boundary)@.last_error == Some(error@)
            }
        },
        call_ensures(finish_close, (boundary, hub, session, request, sent), status) && sent is Ok
            && old(hub)@.sessions.contains_key(session) ==> {
            &&& final(hub)@.sessions[session].caller_ended
            &&& final(hub)@.sessions[session].results == old(hub)@.sessions[session].results
            &&& final(hub)@.sessions[session].phase == old(hub)@.sessions[session].phase
        },
{
}

/// What a driver can do to stop a statement has its own number.
pub proof fn a_way_to_cancel_is_known_by_its_number(kind: CancelKind, stable: ReldexCancelKind)
    requires
        call_ensures(ReldexCancelKind::from_cancel_kind, (kind,), stable),
    ensures
        kind == CancelKind::Unsupported <==> stable as i32 == 1,
        kind == CancelKind::PreArmedDeadline <==> stable as i32 == 2,
        kind == CancelKind::Native <==> stable as i32 == 3,
        kind == CancelKind::Unrecognized <==> stable as i32 == 0,
{
}

/// A column of an open result is told as the server described it, with nothing
/// fetched: by its own name and place, of its own session and result.
pub proof fn a_results_column_is_told_as_described(
    boundary: &mut Boundary,
    hub: ReldexHub,
    session: ReldexSessionId,
    result: ReldexResultId,
    column: usize,
    valid: u32,
    info: Result<ReldexColumnInfo<'_>, ReldexStatus>,
)
    requires
        !old(boundary)@.in_waker,
        call_ensures(
            reldex_session_result_column,
            (boundary, Some(&hub), session, result, column, Some(valid)),
            info,
        ),
    ensures
        info is Ok <==> {
            &&& hub@.sessions.contains_key(session)
            &&& hub@.sessions[session].results.contains_key(result)
            &&& column < hub@.sessions[session].results[result].columns.len()
        },
        info matches Err(status) ==> status == ReldexStatus::NotFound,
        info matches Ok(info) ==> {
            let told = hub@.sessions[session].results[result].columns[column as int];
            &&& info.struct_size == valid
            &&& info.name.text() == Some(told.name)
            &&& info.kind == ReldexColumnKind::of(told.declared) as i32
            &&& info.nullable == 1 <==> told.nullable == Some(true)
            &&& info.nullable == 2 <==> told.nullable == Some(false)
            &&& info.has_precision <==> told.precision is Some
            &&& told.precision matches Some(precision) ==> info.precision == precision
            &&& info.has_scale <==> told.scale is Some
            &&& told.scale matches Some(scale) ==> info.scale == scale
            &&& final(boundary)@ == old(boundary)@
        },
{
}

/// Whether a request that was answered waits as it was made: one that is accepted
/// was made on an open session, and waits under the id it was given for its own
/// caller and result; one that is refused waits for nothing, and its caller is told
/// which session is not there or what was refused.
pub open spec fn waits_as_made(
    before: HubModel,
    after: HubModel,
    told: BoundaryModel,
    session: u64,
    ready: bool,
    request: u64,
    result: Option<u64>,
    what: Seq<char>,
    answer: Result<Submission, ReldexStatus>,
) -> bool {
    let entry = before.sessions[session];
    match answer {
        Ok(submission) => {
            &&& before.sessions.contains_key(session)
            &&& (entry.phase is Open && entry.connected) || (entry.phase is Opening && ready)
            &&& submission.request == before.next_request
            &&& after.pending.contains_key(submission.request)
            &&& after.pending[submission.request].caller == request
            &&& after.pending[submission.request].result == result
        },
        Err(status) => {
            &&& after.pending == before.pending
            &&& told.last_error is Some
            &&& status == ReldexStatus::InvalidState ==> {
                &&& before.sessions.contains_key(session)
                &&& told.last_error->0.message == "reldex-ffi: "@ + what
                    + " was refused because the session is not open: it is still connecting, its connect failed, or it was closed or abandoned"@
            }
            &&& status == ReldexStatus::NotFound && !before.sessions.contains_key(session)
                ==> told.last_error->0.message == "reldex-ffi: session "@ + decimal(session as nat)
                + " is not on this hub; its TERMINAL event has been drained, or it belongs to another hub"@
        },
    }
}

/// Whatever is asked of a session waits as it was made: for its own caller, and for
/// the result it names where it names one. What a fetch waits for is described as
/// its result was.
pub proof fn a_request_waits_for_its_own_caller(
    boundary: &mut Boundary,
    hub: &mut ReldexHub,
    session: ReldexSessionId,
    ready: bool,
    request: ReldexRequestId,
    result: ReldexResultId,
    text: ReldexStr<'_>,
    deadline_ms: u64,
    max_rows: u32,
    disposition: i32,
    answer: Result<Submission, ReldexStatus>,
)
    requires
        !old(boundary)@.in_waker,
    ensures
        call_ensures(
            reldex_session_execute,
            (boundary, Some(hub), session, ready, request, text, deadline_ms),
            answer,
        ) ==> waits_as_made(
            old(hub)@,
            final(hub)@,
            final(boundary)@,
            session,
            ready,
            request,
            None::<u64>,
            "execute"@,
            answer,
        ),
        call_ensures(
            reldex_session_fetch,
            (boundary, Some(hub), session, ready, request, result, max_rows),
            answer,
        ) ==> waits_as_made(
            old(hub)@,
            final(hub)@,
            final(boundary)@,
            session,
            ready,
            request,
            Some(result),
            "fetch"@,
            answer,
        ),
        call_ensures(
            reldex_session_close_result,
            (boundary, Some(hub), session, ready, request, result),
            answer,
        ) ==> waits_as_made(
            old(hub)@,
            final(hub)@,
            final(boundary)@,
            session,
            ready,
            request,
            Some(result),
            "close_result"@,
            answer,
        ),
        call_ensures(
            reldex_session_close,
            (boundary, Some(hub), session, ready, request, disposition),
            answer,
        ) ==> waits_as_made(
            old(hub)@,
            final(hub)@,
            final(boundary)@,
            session,
            ready,
            request,
            None::<u64>,
            "close"@,
            answer,
        ),
        call_ensures(
            reldex_session_commit,
            (boundary, Some(hub), session, ready, request),
            answer,
        ) ==> waits_as_made(
            old(hub)@,
            final(hub)@,
            final(boundary)@,
            session,
            ready,
            request,
            None::<u64>,
            "commit"@,
            answer,
        ),
        call_ensures(
            reldex_session_rollback,
            (boundary, Some(hub), session, ready, request),
            answer,
        ) ==> waits_as_made(
            old(hub)@,
            final(hub)@,
            final(boundary)@,
            session,
            ready,
            request,
            None::<u64>,
            "rollback"@,
            answer,
        ),
        call_ensures(
            reldex_session_ping,
            (boundary, Some(hub), session, ready, request),
            answer,
        ) ==> waits_as_made(
            old(hub)@,
            final(hub)@,
            final(boundary)@,
            session,
            ready,
            request,
            None::<u64>,
            "ping"@,
            answer,
        ),
        call_ensures(
            reldex_session_fetch,
            (boundary, Some(hub), session, ready, request, result, max_rows),
            answer,
        ) ==> (answer matches Ok(submission) ==> final(hub)@.pending[submission.request].columns
            == Some(old(hub)@.sessions[session].results[result].columns)),
{
}
/// A name and a mode are asked for the same way: the request waits for its own
/// caller and for no result.
pub proof fn a_named_request_waits_for_its_own_caller(
    boundary: &mut Boundary,
    hub: &mut ReldexHub,
    session: ReldexSessionId,
    ready: bool,
    request: ReldexRequestId,
    name: ReldexStr<'_>,
    mode: i32,
    buffer_bytes: u64,
    checked: Result<(), String>,
    answer: Result<Submission, ReldexStatus>,
)
    requires
        !old(boundary)@.in_waker,
    ensures
        call_ensures(
            reldex_session_savepoint,
            (boundary, Some(hub), session, ready, request, name, checked),
            answer,
        ) ==> waits_as_made(
            old(hub)@,
            final(hub)@,
            final(boundary)@,
            session,
            ready,
            request,
            None::<u64>,
            "savepoint"@,
            answer,
        ),
        call_ensures(
            reldex_session_rollback_to_savepoint,
            (boundary, Some(hub), session, ready, request, name, checked),
            answer,
        ) ==> waits_as_made(
            old(hub)@,
            final(hub)@,
            final(boundary)@,
            session,
            ready,
            request,
            None::<u64>,
            "rollback_to_savepoint"@,
            answer,
        ),
        call_ensures(
            reldex_session_set_server_output,
            (boundary, Some(hub), session, ready, request, mode, buffer_bytes),
            answer,
        ) ==> waits_as_made(
            old(hub)@,
            final(hub)@,
            final(boundary)@,
            session,
            ready,
            request,
            None::<u64>,
            "set_server_output"@,
            answer,
        ),
{
}

/// A result that is not open, and a column that a result does not have, are told by
/// their own numbers, and by how many columns there are.
pub proof fn a_missing_column_is_named(
    boundary: &mut Boundary,
    hub: ReldexHub,
    session: ReldexSessionId,
    result: ReldexResultId,
    column: usize,
    out: Option<u32>,
    info: Result<ReldexColumnInfo<'_>, ReldexStatus>,
)
    requires
        !old(boundary)@.in_waker,
        hub@.sessions.contains_key(session),
        call_ensures(
            reldex_session_result_column,
            (boundary, Some(&hub), session, result, column, out),
            info,
        ),
    ensures
        !hub@.sessions[session].results.contains_key(result) ==> {
            &&& info == Err::<ReldexColumnInfo<'_>, _>(ReldexStatus::NotFound)
            &&& final(boundary)@.last_error is Some
            &&& final(boundary)@.last_error->0.message =~= "reldex-ffi: "@
                + "reldex_session_result_column"@ + ": session "@ + decimal(session as nat)
                + " has no open result "@ + decimal(result as nat)
        },
        hub@.sessions[session].results.contains_key(result) && column
            >= hub@.sessions[session].results[result].columns.len() ==> {
            &&& info == Err::<ReldexColumnInfo<'_>, _>(ReldexStatus::NotFound)
            &&& final(boundary)@.last_error is Some
            &&& final(boundary)@.last_error->0.message
                =~= "reldex-ffi: reldex_session_result_column: column "@ + decimal(column as nat)
                + " is out of range; the result has "@ + decimal(
                hub@.sessions[session].results[result].columns.len(),
            )
        },
{
}

/// A session that ends gives back what it held: whether it was abandoned, whether
/// its caller ended it, and the description of each open result.
pub proof fn an_ended_session_gives_back_what_it_held(
    entry: &mut SessionEntry,
    ended: Ended,
    closing: &mut SessionEntry,
    columns: Vec<Arc<ResultColumns>>,
    key: u64,
)
    requires
        call_ensures(SessionEntry::end, (entry,), ended),
        call_ensures(SessionEntry::close, (closing,), columns),
    ensures
        ended.abandoned == old(entry)@.abandoned,
        ended.caller_ended == old(entry)@.caller_ended,
        ended.columns@.len() == old(entry)@.results.dom().len(),
        old(entry)@.results.contains_key(key) ==> exists|i: int|
            0 <= i < ended.columns@.len() && (#[trigger] ended.columns@[i])@ == old(
                entry,
            )@.results[key].columns,
        final(entry)@.phase is Closed && !final(entry)@.connected,
        !final(entry)@.results.contains_key(key),
        columns@.len() == old(closing)@.results.dom().len(),
        final(closing)@.phase is Closed && !final(closing)@.connected,
        final(closing)@.caller_ended,
        !final(closing)@.results.contains_key(key),
        final(closing)@.abandoned == old(closing)@.abandoned,
        final(closing)@.next_result == old(closing)@.next_result,
{
}

/// A result is registered under a key of its own, found by the id the core gave it,
/// and forgotten with its own description; no other result changes.
pub proof fn a_registered_result_is_found_and_forgotten(
    entry: &mut SessionEntry,
    id: u64,
    columns: Arc<ResultColumns>,
    key: u64,
    later: &mut SessionEntry,
    forgotten: Option<Arc<ResultColumns>>,
    other: u64,
)
    requires
        call_ensures(SessionEntry::register_result, (entry, id, columns), key),
        call_ensures(SessionEntry::forget_result, (later, key), forgotten),
        other != key,
    ensures
        final(entry)@.results.contains_key(key),
        final(entry)@.results[key].id == id,
        final(entry)@.results[key].columns == columns@,
        final(entry)@.results.contains_key(other) <==> old(entry)@.results.contains_key(other),
        old(entry)@.results.contains_key(other) ==> final(entry)@.results[other] == old(
            entry,
        )@.results[other],
        final(entry)@.phase == old(entry)@.phase && final(entry)@.connected == old(
            entry,
        )@.connected,
        !final(later)@.results.contains_key(key),
        final(later)@.results.contains_key(other) <==> old(later)@.results.contains_key(other),
        old(later)@ == final(entry)@ ==> forgotten is Some && forgotten->0@ == columns@,
{
}

/// Whatever is well made is accepted by a session that is open: a statement that is
/// text, a fetch of some rows of an open result, a close by a known decision, a
/// savepoint whose name the driver takes, and every known way to collect output.
pub proof fn a_well_made_request_is_accepted(
    boundary: &mut Boundary,
    hub: &mut ReldexHub,
    session: ReldexSessionId,
    ready: bool,
    request: ReldexRequestId,
    result: ReldexResultId,
    text: ReldexStr<'_>,
    deadline_ms: u64,
    max_rows: u32,
    number: i32,
    buffer_bytes: u64,
    checked: Result<(), String>,
    answer: Result<Submission, ReldexStatus>,
)
    requires
        !old(boundary)@.in_waker,
        old(hub)@.sessions.contains_key(session),
        old(hub)@.sessions[session].phase is Open,
        old(hub)@.sessions[session].connected,
    ensures
        call_ensures(
            reldex_session_execute,
            (boundary, Some(hub), session, ready, request, text, deadline_ms),
            answer,
        ) ==> (answer is Ok <==> text.text() is Some),
        call_ensures(
            reldex_session_fetch,
            (boundary, Some(hub), session, ready, request, result, max_rows),
            answer,
        ) ==> (answer is Ok <==> max_rows > 0 && old(
            hub,
        )@.sessions[session].results.contains_key(result)),
        call_ensures(
            reldex_session_close_result,
            (boundary, Some(hub), session, ready, request, result),
            answer,
        ) ==> (answer is Ok <==> old(hub)@.sessions[session].results.contains_key(result)),
        call_ensures(
            reldex_session_close,
            (boundary, Some(hub), session, ready, request, number),
            answer,
        ) ==> (answer is Ok <==> 1 <= number <= 3),
        call_ensures(
            reldex_session_commit,
            (boundary, Some(hub), session, ready, request),
            answer,
        ) ==> answer is Ok,
        call_ensures(
            reldex_session_rollback,
            (boundary, Some(hub), session, ready, request),
            answer,
        ) ==> answer is Ok,
        call_ensures(
            reldex_session_ping,
            (boundary, Some(hub), session, ready, request),
            answer,
        ) ==> answer is Ok,
        call_ensures(
            reldex_session_savepoint,
            (boundary, Some(hub), session, ready, request, text, checked),
            answer,
        ) ==> (answer is Ok <==> text.text() is Some && checked is Ok),
        call_ensures(
            reldex_session_rollback_to_savepoint,
            (boundary, Some(hub), session, ready, request, text, checked),
            answer,
        ) ==> (answer is Ok <==> text.text() is Some && checked is Ok),
        call_ensures(
            reldex_session_set_server_output,
            (boundary, Some(hub), session, ready, request, number, buffer_bytes),
            answer,
        ) ==> (answer is Ok <==> number == 1 || number == 2 || (number == 3 && 0 < buffer_bytes
            <= 0xffff_ffff)),
{
}

/// A savepoint name that the driver does not take is refused in the driver's own
/// words, as the input's fault; nothing is sent for it.
pub proof fn a_refused_name_is_told_in_the_drivers_words(
    boundary: &mut Boundary,
    hub: Option<&mut ReldexHub>,
    session: ReldexSessionId,
    ready: bool,
    request: ReldexRequestId,
    name: ReldexStr<'_>,
    why: String,
    answer: Result<Submission, ReldexStatus>,
)
    requires
        !old(boundary)@.in_waker,
        name.text() is Some,
        call_ensures(
            reldex_session_savepoint,
            (boundary, hub, session, ready, request, name, Err(why)),
            answer,
        ) || call_ensures(
            reldex_session_rollback_to_savepoint,
            (boundary, hub, session, ready, request, name, Err(why)),
            answer,
        ),
    ensures
        answer == Err::<Submission, _>(ReldexStatus::InvalidArgument),
        final(boundary)@.last_error is Some,
        final(boundary)@.last_error->0.message == why@,
        final(boundary)@.last_error->0.kind == ReldexErrorKind::Configuration,
        hub matches Some(hub) ==> final(hub)@ == hub@,
{
}

} // verus!
