//! What a caller does to a session besides working on it: opening it, walking
//! away from it, interrupting it, and reading what its connect had to say.
//!
//! Opening, abandoning and cancelling each take two steps. The first decides
//! whether the session registry is to be called and records what the hub has to
//! know beforehand. The second takes the registry's answer.

use vstd::prelude::*;

use crate::error::{DbError, ErrorKind, ErrorModel, ReldexErrorKind, SessionLifecycle};
use crate::event::texts;
use crate::format::ReldexTextArena;
use crate::hub::{HubModel, Pending, PendingModel, ReldexHub};
use crate::mock::{build_driver, openable, world_of, MockWorld, ReldexOpenOptions};
use crate::session::{set_unknown_session, submitted, unknown_session, without_hub, Phase,
    ReldexRequestId, ReldexSessionId, SessionEntry, SessionModel};
use crate::status::{Boundary, BoundaryModel, ReldexStatus};
use crate::strings::InParam;
use crate::text::decimal;

verus! {

/// What a cancel request achieved.
///
/// `0` is reserved for an outcome the caller's header predates.
#[derive(Debug, Clone, Copy, PartialEq, Eq, Structural)]
pub enum ReldexCancelOutcome {
    /// An outcome this header does not know.
    Unknown,
    /// An interrupt was delivered or armed. Best effort: the statement may still
    /// finish normally, and its outcome arrives as its own event.
    Requested,
    /// Nothing was sent and nothing will stop early: this driver cannot
    /// interrupt a running call.
    NotInterruptible,
}

/// What a cancel request achieved, as the session says it.
#[derive(Debug, Clone, Copy, PartialEq, Eq, Structural)]
pub enum CancelOutcome {
    Requested,
    NotInterruptible,
    /// An outcome this library predates.
    Unrecognized,
}

impl ReldexCancelOutcome {
    /// The stable outcome of a reported one.
    pub open spec fn of(outcome: CancelOutcome) -> Self {
        match outcome {
            CancelOutcome::Requested => ReldexCancelOutcome::Requested,
            CancelOutcome::NotInterruptible => ReldexCancelOutcome::NotInterruptible,
            CancelOutcome::Unrecognized => ReldexCancelOutcome::Unknown,
        }
    }
}

/// What an abandon found.
///
/// `0` is reserved for an outcome the caller's header predates.
#[derive(Debug, Clone, Copy, PartialEq, Eq, Structural)]
pub enum ReldexAbandonOutcome {
    /// An outcome this header does not know.
    Unknown,
    /// The connect had not finished. A connection that arrives late is closed,
    /// never adopted.
    Connecting,
    /// An open session was released without committing: the server rolls back
    /// whatever transaction it held.
    Open,
    /// The session had already ended. Nothing happened.
    AlreadyEnded,
}

/// What an abandon found, as the session registry says it.
#[derive(Debug, Clone, Copy, PartialEq, Eq, Structural)]
pub enum Abandoned {
    Connecting,
    Open { transaction_possibly_lost: bool },
    /// It had ended, the registry does not know it, or it says something this
    /// library predates.
    Other,
}

/// What a caller is told of an abandon: what it found, and whether a
/// transaction may have been lost with it.
pub open spec fn abandon_outcome(found: Abandoned) -> (ReldexAbandonOutcome, bool) {
    match found {
        Abandoned::Connecting => (ReldexAbandonOutcome::Connecting, false),
        Abandoned::Open { transaction_possibly_lost } => (
            ReldexAbandonOutcome::Open,
            transaction_possibly_lost,
        ),
        Abandoned::Other => (ReldexAbandonOutcome::AlreadyEnded, false),
    }
}

/// What a caller is told whose session cannot be opened.
pub open spec fn unsupported_driver() -> ErrorModel {
    ErrorModel::plain(
        ReldexErrorKind::Unsupported,
        "reldex-ffi: this build cannot open a session against the requested driver; only the mock driver is linked"@,
    )
}

/// Records that a session cannot be opened.
fn set_unsupported_driver(boundary: &mut Boundary)
    ensures
        final(boundary)@ == old(boundary)@.failed(unsupported_driver()),
{
    boundary.set_last_error(
        DbError::new(
            ErrorKind::Unsupported,
            "reldex-ffi: this build cannot open a session against the requested driver; only the mock driver is linked".to_owned(),
        ),
    );
}

/// The options a caller means: none are the defaults.
pub open spec fn meant_options(options: InParam<ReldexOpenOptions>) -> ReldexOpenOptions {
    match options {
        InParam::Given(options) => options,
        _ => ReldexOpenOptions::default_options(),
    }
}

/// A session to be opened: the id its one reply will carry, and the world its
/// driver connects to.
#[derive(Debug)]
pub struct Opening {
    pub request: u64,
    pub world: MockWorld,
}

/// Decides whether a session is opened, and records the reply it owes.
/// `out_aligned` is whether the place for the session's id is null or aligned.
pub fn reldex_hub_open_session(
    boundary: &mut Boundary,
    hub: Option<&mut ReldexHub>,
    options: InParam<ReldexOpenOptions>,
    request: ReldexRequestId,
    out_aligned: bool,
) -> (answer: Result<Opening, ReldexStatus>)
    ensures
        old(boundary)@.in_waker ==> {
            &&& answer == Err::<Opening, _>(ReldexStatus::Reentrant)
            &&& final(boundary)@ == old(boundary)@.refused()
            &&& hub matches Some(hub) ==> final(hub)@ == hub@
        },
        !old(boundary)@.in_waker ==> if options is Refused {
            &&& answer == Err::<Opening, _>(ReldexStatus::InvalidArgument)
            &&& final(boundary)@ == old(boundary)@.argument_error(
                "reldex_hub_open_session: `options` is unaligned or its struct_size is too small"@,
            )
            &&& hub matches Some(hub) ==> final(hub)@ == hub@
        } else if !out_aligned {
            &&& answer == Err::<Opening, _>(ReldexStatus::InvalidArgument)
            &&& final(boundary)@ == old(boundary)@.argument_error(
                "reldex_hub_open_session: `out_session` is unaligned"@,
            )
            &&& hub matches Some(hub) ==> final(hub)@ == hub@
        } else if !openable(meant_options(options)) {
            &&& answer == Err::<Opening, _>(ReldexStatus::InvalidArgument)
            &&& final(boundary)@ == old(boundary)@.failed(unsupported_driver())
            &&& hub matches Some(hub) ==> final(hub)@ == hub@
        } else {
            match hub {
                None => {
                    &&& answer == Err::<Opening, _>(ReldexStatus::InvalidArgument)
                    &&& final(boundary)@ == old(boundary)@.argument_error(
                        "reldex_hub_open_session: `hub` is null or unaligned"@,
                    )
                },
                Some(hub) => {
                    &&& answer matches Ok(opening) && opening.request == hub@.next_request
                        && opening.world == world_of(meant_options(options).mock)
                    &&& final(hub)@ == hub@.begun(PendingModel::caller(request))
                    &&& final(boundary)@ == old(boundary)@
                },
            }
        },
{
    if boundary.refuse_reentrant() {
        return Err(ReldexStatus::Reentrant);
    }
    let options = match options {
        InParam::Null => ReldexOpenOptions::default(),
        InParam::Given(options) => options,
        InParam::Refused => return Err(
            boundary.set_last_argument_error(
                "reldex_hub_open_session: `options` is unaligned or its struct_size is too small",
            ),
        ),
    };
    if !out_aligned {
        return Err(
            boundary.set_last_argument_error("reldex_hub_open_session: `out_session` is unaligned"),
        );
    }
    let world = match build_driver(&options) {
        Ok(world) => world,
        Err(status) => {
            set_unsupported_driver(boundary);
            return Err(status);
        },
    };
    match hub {
        None => Err(
            boundary.set_last_argument_error("reldex_hub_open_session: `hub` is null or unaligned"),
        ),
        Some(hub) => Ok(Opening { request: hub.begin_request(Pending::caller(request)), world }),
    }
}

/// Ends an open: `opened` is the id the registry gave the session, or nothing
/// where its driver could not be set up, in which case no reply is owed.
pub fn finish_open_session(
    boundary: &mut Boundary,
    hub: &mut ReldexHub,
    opening: &Opening,
    opened: Option<ReldexSessionId>,
) -> (status: ReldexStatus)
    ensures
        match opened {
            Some(session) => {
                &&& status == ReldexStatus::Okay
                &&& final(hub)@ == old(hub)@.with_session(
                    session,
                    SessionModel::opening(true, opening.world.block_connect),
                )
                &&& final(boundary)@ == old(boundary)@.plus(crate::counters::Kind::Session)
            },
            None => {
                &&& status == ReldexStatus::Error
                &&& final(hub)@ == old(hub)@.settled(opening.request)
                &&& final(boundary)@ == old(boundary)@.failed(unsupported_driver())
            },
        },
{
    match opened {
        Some(session) => {
            let entry = SessionEntry::new(
                &mut boundary.live,
                true,
                opening.world.block_connect,
            );
            hub.sessions.insert(session, entry);
            ReldexStatus::Okay
        },
        None => {
            hub.abandon_request(opening.request);
            set_unsupported_driver(boundary);
            ReldexStatus::Error
        },
    }
}

/// A session that is opened under an id the hub does not hold yet adds one to
/// the hub and one to the live sessions.
pub proof fn an_opened_session_is_counted(
    hub: HubModel,
    boundary: BoundaryModel,
    session: u64,
    opened: SessionModel,
)
    requires
        hub.sessions.dom().finite(),
        !hub.sessions.contains_key(session),
    ensures
        hub.with_session(session, opened).sessions.dom().len() == hub.sessions.dom().len() + 1,
        boundary.plus(crate::counters::Kind::Session).live.sessions == crate::counters::next_count(
            boundary.live.sessions,
        ),
{
    assert(hub.with_session(session, opened).sessions.dom() =~= hub.sessions.dom().insert(session));
}

impl SessionModel {
    /// Once the caller walked away from the session.
    pub open spec fn left(self) -> Self {
        SessionModel { phase: Phase::Closed, connected: false, caller_ended: true, ..self }
    }
}

/// Walks away from a session: its handle is let go of, and nothing more is
/// accepted on it. `out_aligned` is whether both places for the answer are null
/// or aligned.
pub fn reldex_session_abandon(
    boundary: &mut Boundary,
    hub: Option<&mut ReldexHub>,
    session: ReldexSessionId,
    out_aligned: bool,
) -> (status: ReldexStatus)
    ensures
        old(boundary)@.in_waker ==> {
            &&& status == ReldexStatus::Reentrant
            &&& final(boundary)@ == old(boundary)@.refused()
            &&& hub matches Some(hub) ==> final(hub)@ == hub@
        },
        !old(boundary)@.in_waker ==> if !out_aligned {
            &&& status == ReldexStatus::InvalidArgument
            &&& final(boundary)@ == old(boundary)@.argument_error(
                "reldex_session_abandon: an out pointer is unaligned"@,
            )
            &&& hub matches Some(hub) ==> final(hub)@ == hub@
        } else {
            match hub {
                None => {
                    &&& status == ReldexStatus::InvalidArgument
                    &&& final(boundary)@ == without_hub(old(boundary)@)
                },
                Some(hub) => if !hub@.sessions.contains_key(session) {
                    &&& status == ReldexStatus::NotFound
                    &&& final(boundary)@ == old(boundary)@.failed(unknown_session(session))
                    &&& final(hub)@ == hub@
                } else {
                    &&& status == ReldexStatus::Okay
                    &&& final(boundary)@ == old(boundary)@
                    &&& final(hub)@ == hub@.with_session(session, hub@.sessions[session].left())
                },
            }
        },
{
    if boundary.refuse_reentrant() {
        return ReldexStatus::Reentrant;
    }
    if !out_aligned {
        return boundary.set_last_argument_error(
            "reldex_session_abandon: an out pointer is unaligned",
        );
    }
    let hub = match hub {
        None => return boundary.set_last_argument_error("the hub pointer is null or unaligned"),
        Some(hub) => hub,
    };
    let ghost before = hub@;
    match hub.sessions.remove(session) {
        None => {
            assert(hub@.sessions =~= before.sessions);
            set_unknown_session(boundary, session)
        },
        Some(mut entry) => {
            entry.phase = Phase::Closed;
            entry.connected = false;
            entry.caller_ended = true;
            hub.sessions.insert(session, entry);
            assert(hub@.sessions =~= before.sessions.insert(
                session,
                before.sessions[session].left(),
            ));
            ReldexStatus::Okay
        },
    }
}

/// Ends an abandon: `found` is what the registry found. An abandon that found
/// something to end is what the session's end will be put down to.
pub fn finish_abandon(hub: &mut ReldexHub, session: ReldexSessionId, found: Abandoned) -> (outcome: (
    ReldexAbandonOutcome,
    bool,
))
    ensures
        outcome == abandon_outcome(found),
        final(hub)@ == if old(hub)@.sessions.contains_key(session) && found != Abandoned::Other {
            old(hub)@.with_session(
                session,
                SessionModel { abandoned: true, ..old(hub)@.sessions[session] },
            )
        } else {
            old(hub)@
        },
{
    let outcome = match found {
        Abandoned::Connecting => (ReldexAbandonOutcome::Connecting, false),
        Abandoned::Open { transaction_possibly_lost } => (
            ReldexAbandonOutcome::Open,
            transaction_possibly_lost,
        ),
        Abandoned::Other => return (ReldexAbandonOutcome::AlreadyEnded, false),
    };
    if let Some(mut entry) = hub.sessions.remove(session) {
        entry.abandoned = true;
        hub.sessions.insert(session, entry);
        assert(hub@.sessions =~= old(hub)@.sessions.insert(
            session,
            SessionModel { abandoned: true, ..old(hub)@.sessions[session] },
        ));
    } else {
        assert(hub@.sessions =~= old(hub)@.sessions);
    }
    outcome
}

/// Nothing is accepted on a session the caller walked away from, whatever the
/// registry says of it: every request is refused, and none is recorded.
pub proof fn an_abandoned_session_accepts_nothing(
    hub: HubModel,
    boundary: BoundaryModel,
    session: u64,
    ready: bool,
    what: Seq<char>,
    pending: PendingModel,
)
    requires
        hub.sessions.contains_key(session),
    ensures
        ({
            let left = hub.with_session(session, hub.sessions[session].left());
            let made = submitted(left, boundary, session, ready, what, pending);
            &&& made.outcome == Err::<u64, ReldexStatus>(ReldexStatus::InvalidState)
            &&& made.hub == left
        }),
{
}

/// What a caller is told whose session cannot be asked.
pub open spec fn not_askable(message: Seq<char>) -> ErrorModel {
    ErrorModel::internal("reldex-ffi: "@ + message)
}

impl ReldexHub {
    /// Asks for the handle of `session`; where there is none, the answer to the
    /// caller, with `message` where the session is there and not usable.
    fn askable(
        &mut self,
        boundary: &mut Boundary,
        session: u64,
        ready: bool,
        message: &str,
    ) -> (status: ReldexStatus)
        ensures
            if !old(self)@.sessions.contains_key(session) {
                &&& status == ReldexStatus::NotFound
                &&& final(boundary)@ == old(boundary)@.failed(unknown_session(session))
                &&& final(self)@ == old(self)@
            } else if !old(self)@.sessions[session].usable(ready) {
                &&& status == ReldexStatus::InvalidState
                &&& final(boundary)@ == old(boundary)@.failed(not_askable(message@))
                &&& final(self)@ == old(self)@
            } else {
                &&& status == ReldexStatus::Okay
                &&& final(boundary)@ == old(boundary)@
                &&& final(self)@ == old(self)@.with_session(
                    session,
                    old(self)@.sessions[session].asked(ready),
                )
            },
    {
        if self.sessions.get(session).is_none() {
            return set_unknown_session(boundary, session);
        }
        if !self.session_usable(session, ready) {
            assert(self@.sessions =~= old(self)@.sessions);
            let mut text = String::from_str("reldex-ffi: ");
            text.append(message);
            boundary.set_last_error(DbError::internal(text));
            return ReldexStatus::InvalidState;
        }
        ReldexStatus::Okay
    }
}

/// Decides whether a running statement is to be interrupted. `ready` is whether
/// the core hands the session out; `out_aligned` whether the place for the
/// outcome is null or aligned.
pub fn reldex_session_request_cancel(
    boundary: &mut Boundary,
    hub: Option<&mut ReldexHub>,
    session: ReldexSessionId,
    ready: bool,
    out_aligned: bool,
) -> (status: ReldexStatus)
    ensures
        old(boundary)@.in_waker ==> {
            &&& status == ReldexStatus::Reentrant
            &&& final(boundary)@ == old(boundary)@.refused()
            &&& hub matches Some(hub) ==> final(hub)@ == hub@
        },
        !old(boundary)@.in_waker ==> if !out_aligned {
            &&& status == ReldexStatus::InvalidArgument
            &&& final(boundary)@ == old(boundary)@.argument_error(
                "reldex_session_request_cancel: `out_outcome` is unaligned"@,
            )
            &&& hub matches Some(hub) ==> final(hub)@ == hub@
        } else {
            match hub {
                None => {
                    &&& status == ReldexStatus::InvalidArgument
                    &&& final(boundary)@ == without_hub(old(boundary)@)
                },
                Some(hub) => if !hub@.sessions.contains_key(session) {
                    &&& status == ReldexStatus::NotFound
                    &&& final(boundary)@ == old(boundary)@.failed(unknown_session(session))
                    &&& final(hub)@ == hub@
                } else if !hub@.sessions[session].usable(ready) {
                    &&& status == ReldexStatus::InvalidState
                    &&& final(boundary)@ == old(boundary)@.failed(
                        not_askable(
                            "reldex_session_request_cancel: the session is still opening or already closed; there is nothing to cancel"@,
                        ),
                    )
                    &&& final(hub)@ == hub@
                } else {
                    &&& status == ReldexStatus::Okay
                    &&& final(boundary)@ == old(boundary)@
                    &&& final(hub)@ == hub@.with_session(
                        session,
                        hub@.sessions[session].asked(ready),
                    )
                },
            }
        },
{
    if boundary.refuse_reentrant() {
        return ReldexStatus::Reentrant;
    }
    if !out_aligned {
        return boundary.set_last_argument_error(
            "reldex_session_request_cancel: `out_outcome` is unaligned",
        );
    }
    match hub {
        None => boundary.set_last_argument_error("the hub pointer is null or unaligned"),
        Some(hub) => hub.askable(
            boundary,
            session,
            ready,
            "reldex_session_request_cancel: the session is still opening or already closed; there is nothing to cancel",
        ),
    }
}

/// Ends a cancel request: `answer` is what the session said.
pub fn finish_cancel(boundary: &mut Boundary, answer: Result<CancelOutcome, DbError>) -> (outcome:
    Result<ReldexCancelOutcome, ReldexStatus>)
    ensures
        match answer {
            Ok(reported) => {
                &&& outcome == Ok::<_, ReldexStatus>(ReldexCancelOutcome::of(reported))
                &&& final(boundary)@ == old(boundary)@
            },
            Err(error) => {
                &&& outcome == Err::<ReldexCancelOutcome, _>(ReldexStatus::Error)
                &&& final(boundary)@ == old(boundary)@.failed(error@)
            },
        },
{
    match answer {
        Ok(CancelOutcome::Requested) => Ok(ReldexCancelOutcome::Requested),
        Ok(CancelOutcome::NotInterruptible) => Ok(ReldexCancelOutcome::NotInterruptible),
        Ok(CancelOutcome::Unrecognized) => Ok(ReldexCancelOutcome::Unknown),
        Err(error) => {
            boundary.set_last_error(error);
            Err(ReldexStatus::Error)
        },
    }
}

/// Puts the warnings of a session's connect behind what `arena` holds, in the
/// order the driver reported them. `warnings` are those the session has.
pub fn reldex_session_connect_warnings(
    boundary: &mut Boundary,
    hub: Option<&mut ReldexHub>,
    session: ReldexSessionId,
    ready: bool,
    arena: Option<&mut ReldexTextArena>,
    warnings: &Vec<String>,
) -> (status: ReldexStatus)
    ensures
        status != ReldexStatus::Okay ==> (arena matches Some(arena) ==> final(arena)@ == arena@),
        old(boundary)@.in_waker ==> {
            &&& status == ReldexStatus::Reentrant
            &&& final(boundary)@ == old(boundary)@.refused()
            &&& hub matches Some(hub) ==> final(hub)@ == hub@
        },
        !old(boundary)@.in_waker ==> match arena {
            None => {
                &&& status == ReldexStatus::InvalidArgument
                &&& final(boundary)@ == old(boundary)@.argument_error(
                    "reldex_session_connect_warnings: `arena` is null or unaligned"@,
                )
                &&& hub matches Some(hub) ==> final(hub)@ == hub@
            },
            Some(arena) => match hub {
                None => {
                    &&& status == ReldexStatus::InvalidArgument
                    &&& final(boundary)@ == without_hub(old(boundary)@)
                },
                Some(hub) => if !hub@.sessions.contains_key(session) {
                    &&& status == ReldexStatus::NotFound
                    &&& final(boundary)@ == old(boundary)@.failed(unknown_session(session))
                    &&& final(hub)@ == hub@
                } else if !hub@.sessions[session].usable(ready) {
                    &&& status == ReldexStatus::InvalidState
                    &&& final(boundary)@ == old(boundary)@.failed(
                        not_askable(
                            "reldex_session_connect_warnings: the session is still opening or already closed"@,
                        ),
                    )
                    &&& final(hub)@ == hub@
                } else {
                    &&& status == ReldexStatus::Okay
                    &&& final(boundary)@ == old(boundary)@
                    &&& final(hub)@ == hub@.with_session(
                        session,
                        hub@.sessions[session].asked(ready),
                    )
                    &&& final(arena)@ == arena@ + texts(warnings@)
                },
            },
        },
{
    if boundary.refuse_reentrant() {
        return ReldexStatus::Reentrant;
    }
    let arena = match arena {
        None => return boundary.set_last_argument_error(
            "reldex_session_connect_warnings: `arena` is null or unaligned",
        ),
        Some(arena) => arena,
    };
    let hub = match hub {
        None => return boundary.set_last_argument_error("the hub pointer is null or unaligned"),
        Some(hub) => hub,
    };
    let status = hub.askable(
        boundary,
        session,
        ready,
        "reldex_session_connect_warnings: the session is still opening or already closed",
    );
    if status == ReldexStatus::Okay {
        arena.push_all(warnings);
    }
    status
}

impl ReldexTextArena {
    /// Puts every text behind the others, in order.
    pub(crate) fn push_all(&mut self, more: &Vec<String>)
        ensures
            final(self)@ == old(self)@ + texts(more@),
    {
        let ghost before = self@;
        let mut index: usize = 0;
        while index < more.len()
            invariant
                index <= more@.len(),
                before == old(self)@,
                self@ =~= before + texts(more@).take(index as int),
            decreases more@.len() - index,
        {
            self.push(more[index].as_str());
            assert(texts(more@).take(index + 1) =~= texts(more@).take(index as int).push(
                texts(more@)[index as int],
            ));
            index += 1;
        }
        assert(texts(more@).take(index as int) =~= texts(more@));
    }
}

/// A session is opened against the world its options describe and waits, as
/// connecting, for the one reply that carries the caller's request. Where no
/// driver could be had, nothing waits.
pub proof fn an_opening_waits_for_its_reply(
    boundary: &mut Boundary,
    hub: &mut ReldexHub,
    options: ReldexOpenOptions,
    request: ReldexRequestId,
    answer: Result<Opening, ReldexStatus>,
)
    requires
        !old(boundary).in_waker,
        call_ensures(
            reldex_hub_open_session,
            (boundary, Some(hub), InParam::Given(options), request, true),
            answer,
        ),
    ensures
        answer is Ok <==> options.driver == 1 && (options.mock.scenario == 0
            || options.mock.scenario == 1),
        answer matches Ok(opening) ==> {
            &&& opening.request == old(hub)@.next_request
            &&& final(hub)@.pending.contains_key(opening.request)
            &&& final(hub)@.pending[opening.request].caller == request
            &&& final(hub)@.pending[opening.request].result is None
            &&& final(hub)@.sessions == old(hub)@.sessions
            &&& opening.world.block_connect == options.mock.block_connect
            &&& opening.world.generated.seed == options.mock.seed
        },
        answer is Err ==> {
            &&& answer == Err::<Opening, _>(ReldexStatus::InvalidArgument)
            &&& final(hub)@ == old(hub)@
            &&& final(boundary)@.last_error matches Some(error) && error.kind
                == ReldexErrorKind::Unsupported
        },
{
}

/// A session that was opened is on its hub from then on, connecting: nothing may
/// be asked of it before the core hands it out, it has no results, and nobody
/// ended it.
pub proof fn an_opened_session_is_on_its_hub(
    boundary: &mut Boundary,
    hub: &mut ReldexHub,
    opening: &Opening,
    opened: Option<ReldexSessionId>,
    status: ReldexStatus,
)
    requires
        call_ensures(finish_open_session, (boundary, hub, opening, opened), status),
    ensures
        status == ReldexStatus::Okay <==> opened is Some,
        opened matches Some(session) ==> {
            let entry = final(hub)@.sessions[session];
            &&& final(hub)@.sessions.contains_key(session)
            &&& entry.phase is Opening
            &&& !entry.usable(false)
            &&& entry.usable(true)
            &&& !entry.caller_ended
            &&& !entry.abandoned
            &&& entry.results.dom() == Set::<u64>::empty()
            &&& final(hub)@.pending == old(hub)@.pending
        },
        opened is None ==> {
            &&& status == ReldexStatus::Error
            &&& !final(hub)@.pending.contains_key(opening.request)
            &&& final(hub)@.sessions == old(hub)@.sessions
            &&& final(boundary)@.last_error is Some
        },
{
}

/// Abandoning a session closes it to its caller at once, keeping it on the hub
/// until its end is drained; what was found is told as it was, and a transaction
/// is reported lost only where the session says so.
pub proof fn an_abandon_says_what_it_found(
    boundary: &mut Boundary,
    hub: &mut ReldexHub,
    session: ReldexSessionId,
    status: ReldexStatus,
    later: &mut ReldexHub,
    found: Abandoned,
    outcome: (ReldexAbandonOutcome, bool),
)
    requires
        !old(boundary).in_waker,
        call_ensures(reldex_session_abandon, (boundary, Some(hub), session, true), status),
        call_ensures(finish_abandon, (later, session, found), outcome),
    ensures
        status == ReldexStatus::Okay <==> old(hub)@.sessions.contains_key(session),
        status == ReldexStatus::NotFound <==> !old(hub)@.sessions.contains_key(session),
        status == ReldexStatus::Okay ==> {
            let left = final(hub)@.sessions[session];
            &&& final(hub)@.sessions.contains_key(session)
            &&& !left.usable(true)
            &&& left.caller_ended
            &&& left.abandoned == old(hub)@.sessions[session].abandoned
            &&& left.results == old(hub)@.sessions[session].results
            &&& final(hub)@.pending == old(hub)@.pending
        },
        outcome.0 as i32 == 1 <==> found is Connecting,
        outcome.0 as i32 == 2 <==> found is Open,
        outcome.0 as i32 == 3 <==> found is Other,
        outcome.1 <==> (found matches Abandoned::Open { transaction_possibly_lost }
            && transaction_possibly_lost),
        found !is Other && old(later)@.sessions.contains_key(session)
            ==> final(later)@.sessions[session].abandoned,
        found is Other ==> final(later)@ == old(later)@,
        final(later)@.pending == old(later)@.pending,
{
}

/// A cancel is asked of a session that is open and of no other, and is answered
/// with what the session said it achieved. Nothing else is changed by one.
pub proof fn a_cancel_says_what_it_achieved(
    boundary: &mut Boundary,
    hub: &mut ReldexHub,
    session: ReldexSessionId,
    ready: bool,
    status: ReldexStatus,
    later: &mut Boundary,
    answer: Result<CancelOutcome, DbError>,
    outcome: Result<ReldexCancelOutcome, ReldexStatus>,
)
    requires
        !old(boundary).in_waker,
        call_ensures(
            reldex_session_request_cancel,
            (boundary, Some(hub), session, ready, true),
            status,
        ),
        call_ensures(finish_cancel, (later, answer), outcome),
    ensures
        status == ReldexStatus::Okay <==> old(hub)@.sessions.contains_key(session) && (
        (old(hub)@.sessions[session].phase is Open && old(hub)@.sessions[session].connected) || (
        old(hub)@.sessions[session].phase is Opening && ready)),
        status == ReldexStatus::NotFound <==> !old(hub)@.sessions.contains_key(session),
        status != ReldexStatus::Okay ==> final(boundary)@.last_error is Some,
        final(hub)@.pending == old(hub)@.pending,
        outcome is Ok <==> answer is Ok,
        outcome matches Ok(stable) ==> {
            &&& stable as i32 == 1 <==> answer->Ok_0 is Requested
            &&& stable as i32 == 2 <==> answer->Ok_0 is NotInterruptible
            &&& stable as i32 == 0 <==> answer->Ok_0 is Unrecognized
        },
        answer matches Err(error) ==> final(later)@.last_error == Some(error@),
{
}

/// The warnings of a connect are put into the arena as they were given, in order,
/// behind what is there.
pub proof fn warnings_are_handed_out_in_order(
    boundary: &mut Boundary,
    hub: &mut ReldexHub,
    session: ReldexSessionId,
    ready: bool,
    arena: &mut ReldexTextArena,
    warnings: &Vec<String>,
    status: ReldexStatus,
)
    requires
        !old(boundary).in_waker,
        call_ensures(
            reldex_session_connect_warnings,
            (boundary, Some(hub), session, ready, Some(arena), warnings),
            status,
        ),
    ensures
        status == ReldexStatus::Okay <==> old(hub)@.sessions.contains_key(session)
            && old(hub)@.sessions[session].usable(ready),
        status == ReldexStatus::Okay ==> {
            &&& final(arena)@.len() == old(arena)@.len() + warnings@.len()
            &&& forall|i: int|
                0 <= i < old(arena)@.len() ==> #[trigger] final(arena)@[i] == old(arena)@[i]
            &&& forall|i: int|
                0 <= i < warnings@.len() ==> #[trigger] final(arena)@[old(arena)@.len() + i]
                    == warnings@[i]@
        },
        status != ReldexStatus::Okay ==> final(arena)@ == old(arena)@,
{
}

/// A session that was opened has what its world parks: its blocking statement, and
/// its connect exactly where the world says so. One that was abandoned is closed to
/// its caller, whatever it was before, and reports so.
pub proof fn a_session_is_what_was_made_of_it(
    boundary: &mut Boundary,
    hub: &mut ReldexHub,
    opening: &Opening,
    session: ReldexSessionId,
    status: ReldexStatus,
    later: &mut Boundary,
    left: &mut ReldexHub,
    abandoned: ReldexStatus,
    lifecycle: SessionLifecycle,
)
    requires
        call_ensures(finish_open_session, (boundary, hub, opening, Some(session)), status),
        !old(later)@.in_waker,
        old(left)@.sessions.contains_key(session),
        call_ensures(reldex_session_abandon, (later, Some(left), session, true), abandoned),
    ensures
        final(hub)@.sessions[session].block,
        final(hub)@.sessions[session].connect_block == opening.world.block_connect,
        final(hub)@.sessions[session].next_result == 1,
        !final(hub)@.sessions[session].connected,
        final(left)@.sessions[session].phase is Closed,
        !final(left)@.sessions[session].connected,
        final(left)@.sessions[session].state(lifecycle) as i32 == 4,
        final(left)@.sessions[session].block == old(left)@.sessions[session].block,
        final(left)@.sessions[session].next_result == old(left)@.sessions[session].next_result,
{
}

/// A session is asked to cancel, or for its warnings, where it is open; where it is
/// not there, its caller is told which one.
pub proof fn a_missing_session_is_named(
    boundary: &mut Boundary,
    hub: &mut ReldexHub,
    session: ReldexSessionId,
    ready: bool,
    status: ReldexStatus,
)
    requires
        !old(boundary)@.in_waker,
        !old(hub)@.sessions.contains_key(session),
        call_ensures(
            reldex_session_request_cancel,
            (boundary, Some(hub), session, ready, true),
            status,
        ) || call_ensures(reldex_session_abandon, (boundary, Some(hub), session, true), status),
    ensures
        status == ReldexStatus::NotFound,
        final(boundary)@.last_error is Some,
        final(boundary)@.last_error->0.message == "reldex-ffi: session "@ + decimal(session as nat)
            + " is not on this hub; its TERMINAL event has been drained, or it belongs to another hub"@,
        final(hub)@ == old(hub)@,
{
}

/// A session opened without options is opened as with options that nobody filled
/// in; one opened with options gets the world they describe.
pub proof fn a_session_opens_in_the_world_it_was_given(
    boundary: &mut Boundary,
    hub: &mut ReldexHub,
    options: InParam<ReldexOpenOptions>,
    fresh: ReldexOpenOptions,
    request: ReldexRequestId,
    answer: Result<Opening, ReldexStatus>,
    world: Result<MockWorld, ReldexStatus>,
)
    requires
        !old(boundary)@.in_waker,
        options !is Refused,
        call_ensures(reldex_hub_open_session, (boundary, Some(hub), options, request, true), answer),
        call_ensures(ReldexOpenOptions::default, (), fresh),
        call_ensures(
            build_driver,
            (&(match options {
                InParam::Given(given) => given,
                _ => fresh,
            }),),
            world,
        ),
    ensures
        answer is Ok <==> world is Ok,
        answer matches Ok(opening) ==> {
            &&& opening.world == world->Ok_0
            &&& final(hub)@.pending.contains_key(opening.request)
            &&& final(hub)@.pending[opening.request].caller == request
            &&& final(hub)@.pending[opening.request].result is None
            &&& final(hub)@.sessions == old(hub)@.sessions
        },
        answer is Err ==> final(hub)@ == old(hub)@,
        options is Null ==> answer is Ok,
{
}

} // verus!
