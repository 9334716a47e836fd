//! How many objects of each kind are alive: a diagnostic for leak checks.

use vstd::prelude::*;

use crate::status::{Boundary, ReldexStatus};
use crate::translate::SessionEvent;

verus! {

/// Which counter an object belongs to.
#[derive(Debug, Clone, Copy, PartialEq, Eq, Structural)]
pub enum Kind {
    Hub,
    Session,
    Batch,
    Error,
    Arena,
    /// Counted with the other small objects.
    ServerOutputLines,
    /// Counted with the other small objects.
    WorkspaceObject,
}

/// The live objects of the process, one count for each kind. Counting wraps
/// around like the machine word it is kept in.
#[derive(Debug, Clone, Copy, PartialEq, Eq, Structural)]
pub struct LiveCounters {
    pub hubs: usize,
    pub sessions: usize,
    pub batches: usize,
    pub errors: usize,
    pub arenas: usize,
    pub misc_objects: usize,
}

/// The word after `count`.
pub open spec fn next_count(count: usize) -> usize {
    if count == usize::MAX {
        0
    } else {
        (count + 1) as usize
    }
}

/// The word before `count`.
pub open spec fn previous_count(count: usize) -> usize {
    if count == 0 {
        usize::MAX
    } else {
        (count - 1) as usize
    }
}

impl LiveCounters {
    /// The count that objects of `kind` are kept in.
    pub open spec fn count(self, kind: Kind) -> usize {
        match kind {
            Kind::Hub => self.hubs,
            Kind::Session => self.sessions,
            Kind::Batch => self.batches,
            Kind::Error => self.errors,
            Kind::Arena => self.arenas,
            Kind::ServerOutputLines | Kind::WorkspaceObject => self.misc_objects,
        }
    }

    /// The counts with the one of `kind` replaced.
    pub open spec fn with_count(self, kind: Kind, count: usize) -> Self {
        match kind {
            Kind::Hub => LiveCounters { hubs: count, ..self },
            Kind::Session => LiveCounters { sessions: count, ..self },
            Kind::Batch => LiveCounters { batches: count, ..self },
            Kind::Error => LiveCounters { errors: count, ..self },
            Kind::Arena => LiveCounters { arenas: count, ..self },
            Kind::ServerOutputLines | Kind::WorkspaceObject => LiveCounters {
                misc_objects: count,
                ..self
            },
        }
    }

    /// The counts once one more object of `kind` exists.
    pub open spec fn plus(self, kind: Kind) -> Self {
        self.with_count(kind, next_count(self.count(kind)))
    }

    /// The counts once one object of `kind` is gone.
    pub open spec fn minus(self, kind: Kind) -> Self {
        self.with_count(kind, previous_count(self.count(kind)))
    }

    /// The counts with what one event carries that nobody has drained.
    pub open spec fn with_carried(self, event: SessionEvent) -> Self {
        let rows = if event.has_batch() {
            self.plus(Kind::Batch)
        } else {
            self
        };
        if event.has_error() {
            rows.plus(Kind::Error)
        } else {
            rows
        }
    }

    /// The counts with what all of `waiting` carry.
    pub open spec fn with_waiting(self, waiting: Seq<&SessionEvent>) -> Self
        decreases waiting.len(),
    {
        if waiting.len() == 0 {
            self
        } else {
            self.with_waiting(waiting.drop_last()).with_carried(*waiting.last())
        }
    }

    /// No object of any kind.
    pub fn new() -> (live: Self)
        ensures
            forall|kind: Kind| #[trigger] live.count(kind) == 0,
    {
        LiveCounters { hubs: 0, sessions: 0, batches: 0, errors: 0, arenas: 0, misc_objects: 0 }
    }

    /// The count that objects of `kind` are kept in.
    pub fn counter(&self, kind: Kind) -> (count: usize)
        ensures
            count == self.count(kind),
    {
        match kind {
            Kind::Hub => self.hubs,
            Kind::Session => self.sessions,
            Kind::Batch => self.batches,
            Kind::Error => self.errors,
            Kind::Arena => self.arenas,
            Kind::ServerOutputLines | Kind::WorkspaceObject => self.misc_objects,
        }
    }

    /// Replaces the count that objects of `kind` are kept in.
    fn set_counter(&mut self, kind: Kind, count: usize)
        ensures
            *final(self) == old(self).with_count(kind, count),
    {
        match kind {
            Kind::Hub => self.hubs = count,
            Kind::Session => self.sessions = count,
            Kind::Batch => self.batches = count,
            Kind::Error => self.errors = count,
            Kind::Arena => self.arenas = count,
            Kind::ServerOutputLines | Kind::WorkspaceObject => self.misc_objects = count,
        }
    }

    /// Records that one object of `kind` now exists.
    pub fn created(&mut self, kind: Kind)
        ensures
            *final(self) == old(self).plus(kind),
    {
        let count: usize = self.counter(kind);
        self.set_counter(
            kind,
            if count == usize::MAX {
                0
            } else {
                count + 1
            },
        );
    }

    /// Records that one object of `kind` has been destroyed.
    pub fn destroyed(&mut self, kind: Kind)
        ensures
            *final(self) == old(self).minus(kind),
    {
        let count: usize = self.counter(kind);
        self.set_counter(
            kind,
            if count == 0 {
                usize::MAX
            } else {
                count - 1
            },
        );
    }

    /// Adds what `waiting` carry: the batches and errors of events that nobody
    /// has drained.
    pub fn count_waiting(&mut self, waiting: &[&SessionEvent])
        ensures
            *final(self) == old(self).with_waiting(waiting@),
    {
        let mut index: usize = 0;
        assert(waiting@.take(0) =~= Seq::<&SessionEvent>::empty());
        while index < waiting.len()
            invariant
                index <= waiting@.len(),
                *self == old(self).with_waiting(waiting@.take(index as int)),
            decreases waiting@.len() - index,
        {
            let event = waiting[index];
            if event.carries_batch() {
                self.created(Kind::Batch);
            }
            if event.carries_error() {
                self.created(Kind::Error);
            }
            index += 1;
            assert(waiting@.take(index as int).drop_last() =~= waiting@.take(index - 1));
        }
        assert(waiting@.take(index as int) =~= waiting@);
    }
}

/// An object that is created and destroyed leaves every count as it was.
pub proof fn created_then_destroyed(live: LiveCounters, kind: Kind)
    ensures
        live.plus(kind).minus(kind) == live,
        live.minus(kind).plus(kind) == live,
{
}

/// How many objects of each kind are live; see [`reldex_live_counts`].
#[derive(Debug, Clone, Copy, PartialEq, Eq, Structural)]
pub struct ReldexLiveCounts {
    /// How many bytes of the counts are valid.
    pub struct_size: u32,
    /// Hubs that are not yet fully torn down.
    pub hubs: usize,
    /// Sessions that are still alive.
    pub sessions: usize,
    /// Fetched batches: held by the caller, or in an event nobody has drained.
    pub batches: usize,
    /// Errors: held by the caller, in an event nobody has drained, or in some
    /// thread's last-error slot.
    pub errors: usize,
    /// Text arenas.
    pub arenas: usize,
    /// Everything else the caller owns and releases: server output line sets,
    /// metadata queries, profiles and profile lists, history pages, and
    /// worksheets and worksheet lists.
    pub misc_objects: usize,
}

/// Reports the live objects of the process. `waiting` are the events of every
/// hub that nobody has drained: what they carry is live, since its memory is
/// still held. `out` is how many bytes the caller's struct takes, or nothing
/// where it was refused.
pub fn reldex_live_counts(
    boundary: &mut Boundary,
    waiting: &[&SessionEvent],
    out: Option<u32>,
) -> (counts: Result<ReldexLiveCounts, ReldexStatus>)
    ensures
        old(boundary)@.in_waker ==> {
            &&& counts == Err::<ReldexLiveCounts, _>(ReldexStatus::Reentrant)
            &&& final(boundary)@ == old(boundary)@.refused()
        },
        !old(boundary)@.in_waker ==> match out {
            None => {
                &&& counts == Err::<ReldexLiveCounts, _>(ReldexStatus::InvalidArgument)
                &&& final(boundary)@ == old(boundary)@.argument_error(
                    "reldex_live_counts: `out` is null, unaligned, or too small"@,
                )
            },
            Some(valid) => {
                let live = old(boundary)@.live.with_waiting(waiting@);
                &&& counts == Ok::<_, ReldexStatus>(
                    ReldexLiveCounts {
                        struct_size: valid,
                        hubs: live.hubs,
                        sessions: live.sessions,
                        batches: live.batches,
                        errors: live.errors,
                        arenas: live.arenas,
                        misc_objects: live.misc_objects,
                    },
                )
                &&& final(boundary)@ == old(boundary)@
            },
        },
{
    if boundary.refuse_reentrant() {
        return Err(ReldexStatus::Reentrant);
    }
    match out {
        None => Err(
            boundary.set_last_argument_error(
                "reldex_live_counts: `out` is null, unaligned, or too small",
            ),
        ),
        Some(valid) => {
            let mut live = boundary.live;
            live.count_waiting(waiting);
            Ok(
                ReldexLiveCounts {
                    struct_size: valid,
                    hubs: live.hubs,
                    sessions: live.sessions,
                    batches: live.batches,
                    errors: live.errors,
                    arenas: live.arenas,
                    misc_objects: live.misc_objects,
                },
            )
        },
    }
}

/// Each count is kept apart: an object counts as its own kind and as no other, but
/// that output lines and the objects of a workspace share one count.
pub proof fn each_kind_is_counted_apart(live: LiveCounters, kind: Kind)
    requires
        live.count(kind) < usize::MAX,
    ensures
        ({
            let more = live.plus(kind);
            &&& more.hubs == live.hubs + if kind is Hub { 1int } else { 0 }
            &&& more.sessions == live.sessions + if kind is Session { 1int } else { 0 }
            &&& more.batches == live.batches + if kind is Batch { 1int } else { 0 }
            &&& more.errors == live.errors + if kind is Error { 1int } else { 0 }
            &&& more.arenas == live.arenas + if kind is Arena { 1int } else { 0 }
            &&& more.misc_objects == live.misc_objects + if kind is ServerOutputLines
                || kind is WorkspaceObject { 1int } else { 0 }
            &&& more.count(kind) == live.count(kind) + 1
        }),
{
}

/// What is reported is what is counted, each under its own name, together with
/// the batches and errors of the events that wait: one batch for every fetch
/// among them that succeeded, and one error for every failure.
pub proof fn the_counts_include_what_waits(
    boundary: &mut Boundary,
    waiting: &[&SessionEvent],
    valid: u32,
    counts: Result<ReldexLiveCounts, ReldexStatus>,
)
    requires
        !old(boundary)@.in_waker,
        old(boundary)@.live.batches + waiting@.len() <= usize::MAX,
        old(boundary)@.live.errors + waiting@.len() <= usize::MAX,
        call_ensures(reldex_live_counts, (boundary, waiting, Some(valid)), counts),
    ensures
        counts is Ok,
        counts matches Ok(counts) ==> {
            let live = old(boundary)@.live;
            &&& counts.struct_size == valid
            &&& counts.hubs == live.hubs
            &&& counts.sessions == live.sessions
            &&& counts.arenas == live.arenas
            &&& counts.misc_objects == live.misc_objects
            &&& counts.batches == live.batches + waiting@.filter(
                |event: &SessionEvent| event.has_batch(),
            ).len()
            &&& counts.errors == live.errors + waiting@.filter(
                |event: &SessionEvent| event.has_error(),
            ).len()
        },
{
    waiting_is_counted(old(boundary)@.live, waiting@);
}

/// Every event that waits is counted for what it carries.
proof fn waiting_is_counted(live: LiveCounters, waiting: Seq<&SessionEvent>)
    requires
        live.batches + waiting.len() <= usize::MAX,
        live.errors + waiting.len() <= usize::MAX,
    ensures
        ({
            let all = live.with_waiting(waiting);
            &&& all.hubs == live.hubs
            &&& all.sessions == live.sessions
            &&& all.arenas == live.arenas
            &&& all.misc_objects == live.misc_objects
            &&& all.batches == live.batches + waiting.filter(
                |event: &SessionEvent| event.has_batch(),
            ).len()
            &&& all.errors == live.errors + waiting.filter(
                |event: &SessionEvent| event.has_error(),
            ).len()
        }),
    decreases waiting.len(),
{
    reveal(Seq::filter);
    if waiting.len() > 0 {
        waiting_is_counted(live, waiting.drop_last());
    }
}

} // verus!
