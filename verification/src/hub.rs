//! The hub: the sessions a caller has open, the requests that still owe a
//! reply, and the event a caller drains next.

use std::collections::VecDeque;
use std::sync::Arc;

use vstd::prelude::*;

use crate::batch::{ColumnModel, ResultColumns};
use crate::counters::{Kind, LiveCounters};
use crate::event::{EventModel, ReldexEvent, ReldexEventKind};
use crate::idmap::IdMap;
use crate::session::{SessionEntry, SessionModel};
use crate::status::{Boundary, BoundaryModel, ReldexStatus};
use crate::translate::{hub_after, introduced_in_3_2, keeps_descriptions, live_after, matched,
    newer_kind, translate, translated, SessionEvent, SessionFacts};

verus! {

/// What a reply will have to say that its event does not: the caller's own
/// request id and, for a fetch or a result close, which result it names and the
/// columns a batch is described with.
pub struct Pending {
    pub caller: u64,
    pub result: Option<u64>,
    pub columns: Option<Arc<ResultColumns>>,
}

/// What a request still owes.
#[verifier::ext_equal]
pub struct PendingModel {
    pub caller: u64,
    pub result: Option<u64>,
    pub columns: Option<Seq<ColumnModel>>,
}

impl View for Pending {
    type V = PendingModel;

    open spec fn view(&self) -> PendingModel {
        PendingModel {
            caller: self.caller,
            result: self.result,
            columns: match self.columns {
                Some(columns) => Some(columns@),
                None => None,
            },
        }
    }
}

impl PendingModel {
    /// A request that names no result.
    pub open spec fn caller(caller: u64) -> Self {
        PendingModel { caller, result: None, columns: None }
    }
}

impl Pending {
    /// A request that names no result.
    pub fn caller(caller: u64) -> (pending: Self)
        ensures
            pending@ == PendingModel::caller(caller),
    {
        Pending { caller, result: None, columns: None }
    }
}

/// What a hub knows.
#[verifier::ext_equal]
pub struct HubModel {
    /// The sessions by their ids.
    pub sessions: Map<u64, SessionModel>,
    /// The accepted requests without a reply yet, by the ids the hub gave them.
    pub pending: Map<u64, PendingModel>,
    pub next_request: u64,
    /// Column descriptions of results that were open when their session was
    /// lost, kept until the hub goes.
    pub orphaned: Seq<Seq<ColumnModel>>,
}

/// The hub every session hangs off.
pub struct ReldexHub {
    pub sessions: IdMap<SessionEntry>,
    pub pending: IdMap<Pending>,
    pub next_request: u64,
    pub orphaned_columns: Vec<Arc<ResultColumns>>,
}

/// What shared descriptions say.
pub open spec fn descriptions(columns: Seq<Arc<ResultColumns>>) -> Seq<Seq<ColumnModel>> {
    columns.map_values(|columns: Arc<ResultColumns>| columns@)
}

impl View for ReldexHub {
    type V = HubModel;

    open spec fn view(&self) -> HubModel {
        HubModel {
            sessions: self.sessions@,
            pending: self.pending@,
            next_request: self.next_request,
            orphaned: descriptions(self.orphaned_columns@),
        }
    }
}

/// The id behind `id`.
pub open spec fn next_id(id: u64) -> u64 {
    if id == u64::MAX {
        0
    } else {
        (id + 1) as u64
    }
}

impl HubModel {
    /// A hub without sessions or requests.
    pub open spec fn empty() -> Self {
        HubModel {
            sessions: Map::empty(),
            pending: Map::empty(),
            next_request: 1,
            orphaned: Seq::empty(),
        }
    }

    /// Once a request is recorded under the next id.
    pub open spec fn begun(self, pending: PendingModel) -> Self {
        HubModel {
            pending: self.pending.insert(self.next_request, pending),
            next_request: next_id(self.next_request),
            ..self
        }
    }

    /// Once request `request` owes nothing any more.
    pub open spec fn settled(self, request: u64) -> Self {
        HubModel { pending: self.pending.remove(request), ..self }
    }

    /// Once session `id` is `session`.
    pub open spec fn with_session(self, id: u64, session: SessionModel) -> Self {
        HubModel { sessions: self.sessions.insert(id, session), ..self }
    }

    /// Whether every id given out so far is below the next one.
    pub open spec fn ids_below_next(self) -> bool {
        forall|id: u64| #[trigger] self.pending.contains_key(id) ==> id < self.next_request
    }
}

impl HubModel {
    /// Whether every id and every key that is in use is below the next one that
    /// will be given out.
    pub open spec fn ids_are_in_order(self) -> bool {
        &&& self.ids_below_next()
        &&& forall|id: u64| #[trigger]
            self.sessions.contains_key(id) ==> self.sessions[id].keys_below_next()
    }
}

/// A hub without sessions or requests has its ids in order.
pub proof fn a_new_hub_has_its_ids_in_order()
    ensures
        HubModel::empty().ids_are_in_order(),
{
}

/// A request gets an id that no other request is waiting under, and so does the
/// next one, until the ids run out.
pub proof fn request_ids_are_fresh(hub: HubModel, pending: PendingModel)
    requires
        hub.ids_below_next(),
        hub.next_request < u64::MAX,
    ensures
        !hub.pending.contains_key(hub.next_request),
        hub.begun(pending).ids_below_next(),
        hub.begun(pending).next_request > hub.next_request,
{
}

/// A request that is recorded and then refused leaves nothing behind but a used
/// id: no reply will come for it.
pub proof fn refused_request_leaves_nothing(hub: HubModel, pending: PendingModel)
    requires
        hub.ids_below_next(),
    ensures
        hub.begun(pending).settled(hub.next_request) == (HubModel {
            next_request: next_id(hub.next_request),
            ..hub
        }),
{
    assert(!hub.pending.contains_key(hub.next_request));
    assert(hub.pending.insert(hub.next_request, pending).remove(hub.next_request) =~= hub.pending);
}

impl ReldexHub {
    /// A hub without sessions, counted.
    pub fn new(live: &mut LiveCounters) -> (hub: Self)
        ensures
            hub@ == HubModel::empty(),
            *final(live) == old(live).plus(Kind::Hub),
    {
        live.created(Kind::Hub);
        let hub = ReldexHub {
            sessions: IdMap::new(),
            pending: IdMap::new(),
            next_request: 1,
            orphaned_columns: Vec::new(),
        };
        assert(hub@ =~= HubModel::empty());
        hub
    }

    /// Records what a request's reply will need, and gives it the id it is
    /// submitted under.
    pub fn begin_request(&mut self, pending: Pending) -> (request: u64)
        ensures
            request == old(self)@.next_request,
            final(self)@ == old(self)@.begun(pending@),
    {
        let request: u64 = self.next_request;
        self.next_request = if request == u64::MAX {
            0
        } else {
            request + 1
        };
        self.pending.insert(request, pending);
        request
    }

    /// Forgets a request that was refused: no reply will come for it.
    pub fn abandon_request(&mut self, request: u64)
        ensures
            final(self)@ == old(self)@.settled(request),
    {
        self.pending.remove(request);
    }

    /// Keeps a lost session's column descriptions until the hub goes away.
    pub fn orphan_columns(&mut self, columns: Vec<Arc<ResultColumns>>)
        ensures
            final(self)@ == (HubModel {
                orphaned: old(self)@.orphaned + descriptions(columns@),
                ..old(self)@
            }),
    {
        let mut columns = columns;
        let ghost more = columns@;
        self.orphaned_columns.append(&mut columns);
        assert(descriptions(self.orphaned_columns@) =~= old(self)@.orphaned + descriptions(more));
    }
}

/// Makes a hub.
pub fn reldex_hub_create(boundary: &mut Boundary) -> (hub: Option<ReldexHub>)
    ensures
        old(boundary)@.in_waker ==> hub is None && final(boundary)@ == old(boundary)@.refused(),
        !old(boundary)@.in_waker ==> {
            &&& hub matches Some(hub) && hub@ == HubModel::empty()
            &&& final(boundary)@ == old(boundary)@.plus(Kind::Hub)
        },
{
    if boundary.refuse_reentrant() {
        return None;
    }
    Some(ReldexHub::new(&mut boundary.live))
}

/// The counts once `count` sessions are gone.
pub open spec fn without_sessions(live: LiveCounters, count: nat) -> LiveCounters
    decreases count,
{
    if count == 0 {
        live
    } else {
        without_sessions(live, (count - 1) as nat).minus(Kind::Session)
    }
}

/// What became of a hub that was to be destroyed.
pub enum HubEnd {
    /// There was none.
    Nothing,
    /// The call was refused; the hub is still the caller's.
    Refused(ReldexHub),
    /// It is gone. These sessions were still open, and are to be abandoned:
    /// nothing is committed and nothing is waited for.
    Destroyed { abandoned: Vec<u64> },
}

/// Destroys a hub. Every session still open is handed back to be abandoned, and
/// every column description the hub kept is freed.
pub fn reldex_hub_destroy(boundary: &mut Boundary, hub: Option<ReldexHub>) -> (end: HubEnd)
    ensures
        old(boundary)@.in_waker ==> {
            &&& final(boundary)@ == old(boundary)@.refused()
            &&& match hub {
                Some(hub) => end == HubEnd::Refused(hub),
                None => end is Nothing,
            }
        },
        !old(boundary)@.in_waker ==> match hub {
            None => end is Nothing && final(boundary)@ == old(boundary)@,
            Some(hub) => {
                &&& end matches HubEnd::Destroyed { abandoned } && {
                    &&& abandoned@.no_duplicates()
                    &&& abandoned@.len() == hub@.sessions.dom().len()
                    &&& forall|id: u64| #[trigger]
                        abandoned@.contains(id) <==> hub@.sessions.contains_key(id)
                }
                &&& final(boundary)@ == (BoundaryModel {
                    live: without_sessions(
                        old(boundary)@.live,
                        hub@.sessions.dom().len(),
                    ).minus(Kind::Hub),
                    ..old(boundary)@
                })
            },
        },
{
    if boundary.refuse_reentrant() {
        return match hub {
            Some(hub) => HubEnd::Refused(hub),
            None => HubEnd::Nothing,
        };
    }
    match hub {
        None => HubEnd::Nothing,
        Some(hub) => {
            let abandoned = hub.sessions.ids();
            let mut gone: usize = 0;
            while gone < abandoned.len()
                invariant
                    gone <= abandoned@.len(),
                    boundary@ == (BoundaryModel {
                        live: without_sessions(old(boundary)@.live, gone as nat),
                        ..old(boundary)@
                    }),
                decreases abandoned@.len() - gone,
            {
                boundary.live.destroyed(Kind::Session);
                gone += 1;
            }
            boundary.live.destroyed(Kind::Hub);
            HubEnd::Destroyed { abandoned }
        },
    }
}

/// How many sessions a hub holds: from the moment each was opened until its end
/// has been drained.
pub fn reldex_hub_session_count(boundary: &mut Boundary, hub: Option<&ReldexHub>) -> (count: usize)
    ensures
        old(boundary)@.in_waker ==> count == 0 && final(boundary)@ == old(boundary)@.refused(),
        !old(boundary)@.in_waker ==> {
            &&& count == match hub {
                Some(hub) => hub@.sessions.dom().len(),
                None => 0,
            }
            &&& final(boundary)@ == old(boundary)@
        },
{
    if boundary.refuse_reentrant() {
        return 0;
    }
    match hub {
        Some(hub) => hub.sessions.len(),
        None => 0,
    }
}

/// Fills `out` with as many session ids as fit, and reports how many sessions
/// there are in all. The order is unspecified.
pub fn reldex_hub_list_sessions(
    boundary: &mut Boundary,
    hub: Option<&ReldexHub>,
    out: Option<&mut Vec<u64>>,
) -> (total: usize)
    ensures
        old(boundary)@.in_waker ==> {
            &&& total == 0
            &&& final(boundary)@ == old(boundary)@.refused()
            &&& out matches Some(out) ==> final(out)@ == out@
        },
        !old(boundary)@.in_waker ==> {
            &&& final(boundary)@ == old(boundary)@
            &&& total == match hub {
                Some(hub) => hub@.sessions.dom().len(),
                None => 0,
            }
            &&& out matches Some(out) ==> {
                let filled = if total < out@.len() {
                    total as int
                } else {
                    out@.len() as int
                };
                &&& final(out)@.len() == out@.len()
                &&& final(out)@.take(filled).no_duplicates()
                &&& forall|i: int|
                    0 <= i < filled ==> (hub is Some && hub->0@.sessions.contains_key(
                        #[trigger] final(out)@[i],
                    ))
                &&& forall|i: int|
                    filled <= i < out@.len() ==> #[trigger] final(out)@[i] == out@[i]
            }
        },
{
    if boundary.refuse_reentrant() {
        return 0;
    }
    let hub = match hub {
        None => return 0,
        Some(hub) => hub,
    };
    let ids = hub.sessions.ids();
    if let Some(out) = out {
        let ghost before = out@;
        let capacity: usize = out.len();
        let mut index: usize = 0;
        while index < ids.len() && index < capacity
            invariant
                index <= ids@.len(),
                index <= capacity,
                capacity == before.len(),
                out@.len() == before.len(),
                forall|i: int| 0 <= i < index ==> #[trigger] out@[i] == ids@[i],
                forall|i: int| index <= i < before.len() ==> #[trigger] out@[i] == before[i],
            decreases ids@.len() - index,
        {
            out.set(index, ids[index]);
            index += 1;
        }
        proof {
            assert(out@.take(index as int) =~= ids@.take(index as int));
            assert forall|i: int| 0 <= i < index implies hub@.sessions.contains_key(
                #[trigger] out@[i],
            ) by {
                assert(ids@.contains(ids@[i]));
            }
        }
    }
    ids.len()
}

/// An event taken from the core, with what the core says of its session.
pub struct TakenEvent {
    pub event: SessionEvent,
    pub facts: SessionFacts,
}

/// Whether a caller whose struct takes `valid` of `full` bytes is passed over:
/// its header predates the kind this event becomes.
pub open spec fn passed_over(event: SessionEvent, valid: u32, full: u32) -> bool {
    valid < full && newer_kind(event)
}

/// How many events in front of the queue are passed over.
pub open spec fn passed_over_count(queue: Seq<TakenEvent>, valid: u32, full: u32) -> nat
    decreases queue.len(),
{
    if queue.len() > 0 && passed_over(queue[0].event, valid, full) {
        1 + passed_over_count(queue.drop_first(), valid, full)
    } else {
        0
    }
}

/// The hub once the events in front of the queue were passed over: each is
/// matched with its request and goes no further.
pub open spec fn hub_passed_over(
    hub: HubModel,
    queue: Seq<TakenEvent>,
    valid: u32,
    full: u32,
) -> HubModel
    decreases queue.len(),
{
    if queue.len() > 0 && passed_over(queue[0].event, valid, full) {
        hub_passed_over(matched(hub, queue[0].event), queue.drop_first(), valid, full)
    } else {
        hub
    }
}

/// What taking events off `queue` until one can be delivered comes to: those
/// passed over are matched and dropped, and the first other one is translated.
pub open spec fn delivers(
    hub: HubModel,
    queue: Seq<TakenEvent>,
    boundary: BoundaryModel,
    valid: u32,
    full: u32,
    hub_then: HubModel,
    queue_then: Seq<TakenEvent>,
    boundary_then: BoundaryModel,
    delivered: Option<ReldexEvent>,
) -> bool {
    let passed = passed_over_count(queue, valid, full) as int;
    let reached = hub_passed_over(hub, queue, valid, full);
    if passed >= queue.len() {
        &&& delivered is None
        &&& queue_then == Seq::<TakenEvent>::empty()
        &&& hub_then == reached
        &&& boundary_then == boundary
    } else {
        let event = queue[passed].event;
        let facts = queue[passed].facts;
        &&& queue_then == queue.skip(passed + 1)
        &&& delivered is Some
        &&& delivered->0.wf()
        &&& delivered->0.struct_size == valid
        &&& exists|told: EventModel|
            translated(reached, event, facts, told) && #[trigger] delivered->0.says(told)
        &&& hub_then.sessions == hub_after(reached, event, facts).sessions
        &&& hub_then.pending == hub_after(reached, event, facts).pending
        &&& hub_then.next_request == hub.next_request
        &&& keeps_descriptions(reached, event, hub_then)
        &&& boundary_then == (BoundaryModel {
            live: live_after(boundary.live, reached, event),
            ..boundary
        })
    }
}

/// Takes the next event off `queue`. `out` is how many bytes of an event the
/// caller's struct takes, or nothing where it was refused; `full` is how many a
/// caller of this interface version declares. A refused call takes nothing, and
/// a caller is never handed a kind that its header predates.
pub fn reldex_hub_next_event(
    boundary: &mut Boundary,
    hub: Option<&mut ReldexHub>,
    queue: &mut VecDeque<TakenEvent>,
    out: Option<u32>,
    full: u32,
) -> (delivered: Option<ReldexEvent>)
    requires
        forall|i: int| 0 <= i < old(queue)@.len() ==> (#[trigger] old(queue)@[i]).event.wf(),
    ensures
        old(boundary)@.in_waker ==> {
            &&& delivered is None
            &&& final(boundary)@ == old(boundary)@.refused()
            &&& final(queue)@ == old(queue)@
            &&& hub matches Some(hub) ==> final(hub)@ == hub@
        },
        !old(boundary)@.in_waker && out is None ==> {
            &&& delivered is None
            &&& final(boundary)@ == old(boundary)@.argument_error(
                "reldex_hub_next_event: `out` is null, unaligned, or has too small a struct_size"@,
            )
            &&& final(queue)@ == old(queue)@
            &&& hub matches Some(hub) ==> final(hub)@ == hub@
        },
        !old(boundary)@.in_waker && out is Some && hub is None ==> {
            &&& delivered is None
            &&& final(boundary)@ == old(boundary)@
            &&& final(queue)@ == old(queue)@
        },
        !old(boundary)@.in_waker && out is Some ==> (hub matches Some(hub) ==> delivers(
            hub@,
            old(queue)@,
            old(boundary)@,
            out->0,
            full,
            final(hub)@,
            final(queue)@,
            final(boundary)@,
            delivered,
        )),
{
    if boundary.refuse_reentrant() {
        return None;
    }
    let valid: u32 = match out {
        None => {
            boundary.set_last_argument_error(
                "reldex_hub_next_event: `out` is null, unaligned, or has too small a struct_size",
            );
            return None;
        },
        Some(valid) => valid,
    };
    match hub {
        None => None,
        Some(hub) => take_event(boundary, hub, queue, valid, full),
    }
}

/// Takes events off `queue` until one can be delivered.
fn take_event(
    boundary: &mut Boundary,
    hub: &mut ReldexHub,
    queue: &mut VecDeque<TakenEvent>,
    valid: u32,
    full: u32,
) -> (delivered: Option<ReldexEvent>)
    requires
        forall|i: int| 0 <= i < old(queue)@.len() ==> (#[trigger] old(queue)@[i]).event.wf(),
    ensures
        delivers(
            old(hub)@,
            old(queue)@,
            old(boundary)@,
            valid,
            full,
            final(hub)@,
            final(queue)@,
            final(boundary)@,
            delivered,
        ),
    decreases old(queue)@.len(),
{
    let ghost all = queue@;
    match queue.pop_front() {
        None => {
            assert(queue@ =~= Seq::<TakenEvent>::empty());
            None
        },
        Some(taken) => {
            assert(queue@ =~= all.drop_first());
            assert(forall|i: int| 0 <= i < queue@.len() ==> queue@[i] == all[i + 1]);
            if valid < full && introduced_in_3_2(&taken.event) {
                hub.pending_for(&taken.event);
                let ghost reached = hub@;
                let delivered = take_event(boundary, hub, queue, valid, full);
                proof {
                    let rest = passed_over_count(all.drop_first(), valid, full) as int;
                    assert(passed_over_count(all, valid, full) == 1 + rest);
                    assert(hub_passed_over(old(hub)@, all, valid, full)
                        == hub_passed_over(reached, all.drop_first(), valid, full));
                    if rest < all.drop_first().len() {
                        assert(all.drop_first()[rest] == all[rest + 1]);
                        assert(all.drop_first().skip(rest + 1) =~= all.skip(rest + 2));
                    }
                }
                delivered
            } else {
                let ghost before = hub@;
                assert(passed_over_count(all, valid, full) == 0);
                assert(all.skip(1) =~= all.drop_first());
                assert(taken.event.wf());
                let told = translate(&mut boundary.live, hub, taken.event, taken.facts);
                let ghost model = told@;
                let delivered = told.into_c(valid);
                assert(translated(before, taken.event, taken.facts, model));
                Some(delivered)
            }
        },
    }
}

/// Passing events over stops at the first one that is not.
proof fn passed_over_stops(queue: Seq<TakenEvent>, valid: u32, full: u32)
    ensures
        passed_over_count(queue, valid, full) <= queue.len(),
        passed_over_count(queue, valid, full) < queue.len() ==> !passed_over(
            queue[passed_over_count(queue, valid, full) as int].event,
            valid,
            full,
        ),
    decreases queue.len(),
{
    if queue.len() > 0 && passed_over(queue[0].event, valid, full) {
        passed_over_stops(queue.drop_first(), valid, full);
    }
}

/// A caller whose struct does not take a whole event is never handed one of the
/// newer kinds.
pub proof fn older_callers_see_no_newer_kind(
    hub: HubModel,
    queue: Seq<TakenEvent>,
    boundary: BoundaryModel,
    valid: u32,
    full: u32,
    hub_then: HubModel,
    queue_then: Seq<TakenEvent>,
    boundary_then: BoundaryModel,
    delivered: ReldexEvent,
)
    requires
        valid < full,
        delivers(
            hub,
            queue,
            boundary,
            valid,
            full,
            hub_then,
            queue_then,
            boundary_then,
            Some(delivered),
        ),
    ensures
        delivered.kind != ReldexEventKind::Executing as i32,
        delivered.kind != ReldexEventKind::TransactionState as i32,
        delivered.kind != ReldexEventKind::FetchedSegment as i32,
{
    passed_over_stops(queue, valid, full);
}

/// A caller whose struct takes a whole event is handed the front of the queue.
pub proof fn current_callers_see_every_event(queue: Seq<TakenEvent>, valid: u32, full: u32)
    requires
        valid >= full,
    ensures
        passed_over_count(queue, valid, full) == 0,
{
}

/// How many events are waiting to be taken; `queued` is what the core says.
pub fn reldex_hub_pending_events(
    boundary: &mut Boundary,
    hub: Option<&ReldexHub>,
    queued: usize,
) -> (count: usize)
    ensures
        old(boundary)@.in_waker ==> count == 0 && final(boundary)@ == old(boundary)@.refused(),
        !old(boundary)@.in_waker ==> {
            &&& count == if hub is Some {
                queued
            } else {
                0
            }
            &&& final(boundary)@ == old(boundary)@
        },
{
    if boundary.refuse_reentrant() {
        return 0;
    }
    match hub {
        Some(_) => queued,
        None => 0,
    }
}

/// Whether a waker may be registered or unregistered.
pub fn reldex_hub_set_waker(boundary: &mut Boundary, hub: Option<&ReldexHub>) -> (
    status: ReldexStatus)
    ensures
        old(boundary)@.in_waker ==> {
            &&& status == ReldexStatus::Reentrant
            &&& final(boundary)@ == old(boundary)@.refused()
        },
        !old(boundary)@.in_waker && hub is None ==> {
            &&& status == ReldexStatus::InvalidArgument
            &&& final(boundary)@ == old(boundary)@.argument_error(
                "reldex_hub_set_waker: `hub` is null or unaligned"@,
            )
        },
        !old(boundary)@.in_waker && hub is Some ==> {
            &&& status == ReldexStatus::Okay
            &&& final(boundary)@ == old(boundary)@
        },
{
    if boundary.refuse_reentrant() {
        return ReldexStatus::Reentrant;
    }
    match hub {
        Some(_) => ReldexStatus::Okay,
        None => boundary.set_last_argument_error(
            "reldex_hub_set_waker: `hub` is null or unaligned",
        ),
    }
}

/// A hub that is destroyed hands back exactly the sessions it still had, each
/// once, and is counted no more; a refused call hands the hub itself back.
pub proof fn a_destroyed_hub_hands_back_its_sessions(
    boundary: &mut Boundary,
    hub: ReldexHub,
    end: HubEnd,
)
    requires
        call_ensures(reldex_hub_destroy, (boundary, Some(hub)), end),
    ensures
        old(boundary).in_waker ==> (end matches HubEnd::Refused(kept) && kept == hub),
        !old(boundary).in_waker ==> {
            &&& end matches HubEnd::Destroyed { abandoned }
            &&& abandoned@.no_duplicates()
            &&& forall|id: u64| #[trigger]
                abandoned@.contains(id) <==> hub@.sessions.contains_key(id)
            &&& old(boundary)@.live.sessions >= hub@.sessions.dom().len()
                ==> final(boundary)@.live.sessions == old(boundary)@.live.sessions
                - hub@.sessions.dom().len()
            &&& old(boundary)@.live.hubs > 0 ==> final(boundary)@.live.hubs
                == old(boundary)@.live.hubs - 1
            &&& final(boundary)@.live.batches == old(boundary)@.live.batches
            &&& final(boundary)@.live.errors == old(boundary)@.live.errors
        },
{
    sessions_are_taken_off(old(boundary)@.live, hub@.sessions.dom().len());
}

/// Taking sessions off the count takes off as many, and nothing else.
proof fn sessions_are_taken_off(live: LiveCounters, count: nat)
    ensures
        ({
            let then = without_sessions(live, count);
            &&& live.sessions >= count ==> then.sessions == live.sessions - count
            &&& then.hubs == live.hubs
            &&& then.batches == live.batches
            &&& then.errors == live.errors
        }),
    decreases count,
{
    if count > 0 {
        sessions_are_taken_off(live, (count - 1) as nat);
    }
}

/// The sessions a caller is shown are those of its hub, each once and as many as
/// fit; the total is how many there are, and what does not fit stays as it was.
pub proof fn a_hub_lists_its_sessions(
    boundary: &mut Boundary,
    hub: &ReldexHub,
    out: &mut Vec<u64>,
    total: usize,
    count: usize,
    again: &mut Boundary,
)
    requires
        !old(boundary).in_waker,
        !old(again).in_waker,
        call_ensures(reldex_hub_list_sessions, (boundary, Some(hub), Some(out)), total),
        call_ensures(reldex_hub_session_count, (again, Some(hub)), count),
    ensures
        total == count,
        total == hub@.sessions.dom().len(),
        final(out)@.len() == old(out)@.len(),
        forall|i: int|
            0 <= i < total && i < final(out)@.len() ==> hub@.sessions.contains_key(
                #[trigger] final(out)@[i],
            ),
        forall|i: int|
            total <= i < final(out)@.len() ==> #[trigger] final(out)@[i] == old(out)@[i],
        forall|i: int, j: int|
            0 <= i < j < total && j < final(out)@.len() ==> #[trigger] final(out)@[i]
                != #[trigger] final(out)@[j],
{
    let filled = if total < old(out)@.len() {
        total as int
    } else {
        old(out)@.len() as int
    };
    let shown = final(out)@.take(filled);
    assert forall|i: int, j: int|
        0 <= i < j < total && j < final(out)@.len() implies #[trigger] final(out)@[i]
        != #[trigger] final(out)@[j] by {
        assert(shown[i] == final(out)@[i]);
        assert(shown[j] == final(out)@[j]);
    }
}

/// The event a caller drains is the front of the queue, and what is behind it
/// stays: a caller whose struct takes a whole event gets the first one, the hub
/// is what that event leaves, and an empty queue gives none.
pub proof fn events_are_drained_in_order(
    boundary: &mut Boundary,
    hub: &mut ReldexHub,
    queue: &mut VecDeque<TakenEvent>,
    full: u32,
    delivered: Option<ReldexEvent>,
)
    requires
        !old(boundary).in_waker,
        call_ensures(
            reldex_hub_next_event,
            (boundary, Some(hub), queue, Some(full), full),
            delivered,
        ),
    ensures
        old(queue)@.len() == 0 ==> delivered is None && final(queue)@.len() == 0,
        old(queue)@.len() > 0 ==> {
            let first = old(queue)@[0];
            &&& delivered matches Some(event) && event.struct_size == full && exists|
                told: EventModel,
            |
                translated(old(hub)@, first.event, first.facts, told) && #[trigger] event.says(told)
            &&& final(queue)@ == old(queue)@.drop_first()
            &&& final(hub)@.sessions == hub_after(old(hub)@, first.event, first.facts).sessions
            &&& final(hub)@.pending == hub_after(old(hub)@, first.event, first.facts).pending
        },
        final(hub)@.next_request == old(hub)@.next_request,
{
    current_callers_see_every_event(old(queue)@, full, full);
    if old(queue)@.len() > 0 {
        assert(old(queue)@.skip(1) =~= old(queue)@.drop_first());
    }
}

/// A hub starts with nothing on it, and the first request is one.
pub proof fn a_new_hub_is_empty(boundary: &mut Boundary, hub: Option<ReldexHub>)
    requires
        call_ensures(reldex_hub_create, (boundary,), hub),
    ensures
        hub is None <==> old(boundary).in_waker,
        hub matches Some(hub) ==> {
            &&& hub@.next_request == 1
            &&& forall|id: u64| !#[trigger] hub@.sessions.contains_key(id)
            &&& forall|id: u64| !#[trigger] hub@.pending.contains_key(id)
            &&& old(boundary)@.live.hubs < usize::MAX ==> final(boundary)@.live.hubs
                == old(boundary)@.live.hubs + 1
        },
{
}

/// How many events wait is what the core says, of a hub that is there.
pub proof fn waiting_events_are_counted(
    boundary: &mut Boundary,
    hub: Option<&ReldexHub>,
    queued: usize,
    count: usize,
)
    requires
        call_ensures(reldex_hub_pending_events, (boundary, hub, queued), count),
    ensures
        !old(boundary).in_waker && hub is Some ==> count == queued,
        old(boundary).in_waker || hub is None ==> count == 0,
{
}

/// A request is recorded as it was given: under the next id, with nothing else of
/// the hub changed, and forgetting it takes out that one alone.
pub proof fn a_request_is_recorded_as_given(
    hub: HubModel,
    pending: PendingModel,
    request: u64,
    other: u64,
)
    requires
        other != request,
    ensures
        hub.begun(pending).pending[hub.next_request] == pending,
        hub.begun(pending).sessions == hub.sessions,
        hub.next_request < u64::MAX ==> hub.begun(pending).next_request == hub.next_request + 1,
        !hub.settled(request).pending.contains_key(request),
        hub.settled(request).pending.contains_key(other) <==> hub.pending.contains_key(other),
        hub.settled(request).pending[other] == hub.pending[other],
        hub.settled(request).sessions == hub.sessions,
        hub.settled(request).next_request == hub.next_request,
{
}

/// A request that is begun is recorded under an id of its own, with what its
/// caller gave; one that is abandoned at once leaves the hub owing what it owed.
pub proof fn an_abandoned_request_is_forgotten(
    begun: &mut ReldexHub,
    pending: Pending,
    request: u64,
    hub: &mut ReldexHub,
)
    requires
        call_ensures(ReldexHub::begin_request, (begun, pending), request),
        call_ensures(ReldexHub::abandon_request, (hub, request), ()),
    ensures
        final(begun)@.pending.contains_key(request),
        final(begun)@.pending[request] == pending@,
        request == old(begun)@.next_request,
        final(begun)@.sessions == old(begun)@.sessions,
        !final(hub)@.pending.contains_key(request),
        old(hub)@.pending == final(begun)@.pending && !old(begun)@.pending.contains_key(request)
            ==> final(hub)@.pending =~= old(begun)@.pending,
        final(hub)@.sessions == old(hub)@.sessions,
        final(hub)@.next_request == old(hub)@.next_request,
{
}

/// A waker is registered with a hub that is there, and with no other.
pub proof fn a_waker_needs_its_hub(
    boundary: &mut Boundary,
    hub: Option<&ReldexHub>,
    status: ReldexStatus,
)
    requires
        call_ensures(reldex_hub_set_waker, (boundary, hub), status),
    ensures
        status == ReldexStatus::Reentrant <==> old(boundary)@.in_waker,
        status == ReldexStatus::Okay <==> !old(boundary)@.in_waker && hub is Some,
        status == ReldexStatus::InvalidArgument <==> !old(boundary)@.in_waker && hub is None,
        status == ReldexStatus::Okay ==> final(boundary)@ == old(boundary)@,
{
}

/// A caller of an earlier version misses nothing but what it cannot know: an event
/// of any other kind at the front of the queue is the one it gets, and what is
/// behind stays for the next call.
pub proof fn an_older_caller_misses_only_newer_kinds(
    boundary: &mut Boundary,
    hub: &mut ReldexHub,
    queue: &mut VecDeque<TakenEvent>,
    valid: u32,
    full: u32,
    delivered: Option<ReldexEvent>,
)
    requires
        !old(boundary)@.in_waker,
        call_ensures(
            reldex_hub_next_event,
            (boundary, Some(hub), queue, Some(valid), full),
            delivered,
        ),
        old(queue)@.len() > 0,
        !(old(queue)@[0].event is Executing),
        !(old(queue)@[0].event is TransactionStateChanged),
        !(old(queue)@[0].event is FetchedSegment),
    ensures
        delivered is Some,
        delivered->0.struct_size == valid,
        exists|told: EventModel|
            translated(old(hub)@, old(queue)@[0].event, old(queue)@[0].facts, told)
                && #[trigger] delivered->0.says(told),
        final(queue)@ == old(queue)@.drop_first(),
{
    assert(old(queue)@.skip(1) =~= old(queue)@.drop_first());
}

/// A call without a hub, or without a place to write to, takes nothing out of the
/// queue.
pub proof fn a_call_that_gets_nothing_takes_nothing(
    boundary: &mut Boundary,
    hub: Option<&mut ReldexHub>,
    queue: &mut VecDeque<TakenEvent>,
    out: Option<u32>,
    full: u32,
    delivered: Option<ReldexEvent>,
)
    requires
        old(boundary)@.in_waker || out is None || hub is None,
        call_ensures(reldex_hub_next_event, (boundary, hub, queue, out, full), delivered),
    ensures
        delivered is None,
        final(queue)@ == old(queue)@,
        hub matches Some(hub) ==> final(hub)@ == hub@,
{
}

} // verus!
