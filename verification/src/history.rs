//! The statement history: how outcomes and ids cross the boundary, and the page
//! of records a caller is shown.

use vstd::prelude::*;

use crate::counters::{next_count, Kind, LiveCounters};
use crate::profile::{millis_to_ffi, shown_millis};
use crate::status::Boundary;
use crate::strings::{OwnedStr, ReldexStr};

verus! {

/// How a recorded statement ended.
#[derive(Debug, Clone, Copy, PartialEq, Eq, Structural)]
pub enum HistoryOutcome {
    Succeeded,
    Failed { native_code: Option<i32> },
    Cancelled,
    TimedOut,
    /// An outcome this library predates.
    Unrecognized,
}

/// How a recorded statement ended, by number.
///
/// `0` is reserved for a kind the caller's header predates.
#[derive(Debug, Clone, Copy, PartialEq, Eq, Structural)]
pub enum ReldexHistoryOutcomeKind {
    /// A kind this header does not know.
    Unknown,
    /// Ran to completion without error.
    Succeeded,
    /// The database or driver reported an error.
    Failed,
    Cancelled,
    /// The per-statement time limit fired.
    TimedOut,
}

/// An outcome's number, its native code, and whether it has one.
pub open spec fn flat_outcome(outcome: HistoryOutcome) -> (ReldexHistoryOutcomeKind, i32, bool) {
    match outcome {
        HistoryOutcome::Succeeded => (ReldexHistoryOutcomeKind::Succeeded, 0, false),
        HistoryOutcome::Failed { native_code: Some(code) } => (
            ReldexHistoryOutcomeKind::Failed,
            code,
            true,
        ),
        HistoryOutcome::Failed { native_code: None } => (
            ReldexHistoryOutcomeKind::Failed,
            0,
            false,
        ),
        HistoryOutcome::Cancelled => (ReldexHistoryOutcomeKind::Cancelled, 0, false),
        HistoryOutcome::TimedOut => (ReldexHistoryOutcomeKind::TimedOut, 0, false),
        HistoryOutcome::Unrecognized => (ReldexHistoryOutcomeKind::Unknown, 0, false),
    }
}

/// An outcome's number, its native code, and whether it has one.
pub fn split_history_outcome(outcome: HistoryOutcome) -> (flat: (
    ReldexHistoryOutcomeKind,
    i32,
    bool,
))
    ensures
        flat == flat_outcome(outcome),
{
    match outcome {
        HistoryOutcome::Succeeded => (ReldexHistoryOutcomeKind::Succeeded, 0, false),
        HistoryOutcome::Failed { native_code } => match native_code {
            Some(code) => (ReldexHistoryOutcomeKind::Failed, code, true),
            None => (ReldexHistoryOutcomeKind::Failed, 0, false),
        },
        HistoryOutcome::Cancelled => (ReldexHistoryOutcomeKind::Cancelled, 0, false),
        HistoryOutcome::TimedOut => (ReldexHistoryOutcomeKind::TimedOut, 0, false),
        HistoryOutcome::Unrecognized => (ReldexHistoryOutcomeKind::Unknown, 0, false),
    }
}

/// The outcome a caller means, where its number names one. A native code counts
/// only for a failure, and only where there is one.
pub open spec fn outcome_of(kind: i32, native_code: i32, has_native_code: bool) -> Option<
    HistoryOutcome,
> {
    if kind == ReldexHistoryOutcomeKind::Succeeded as i32 {
        Some(HistoryOutcome::Succeeded)
    } else if kind == ReldexHistoryOutcomeKind::Failed as i32 {
        Some(
            HistoryOutcome::Failed {
                native_code: if has_native_code {
                    Some(native_code)
                } else {
                    None
                },
            },
        )
    } else if kind == ReldexHistoryOutcomeKind::Cancelled as i32 {
        Some(HistoryOutcome::Cancelled)
    } else if kind == ReldexHistoryOutcomeKind::TimedOut as i32 {
        Some(HistoryOutcome::TimedOut)
    } else {
        None
    }
}

/// The outcome a caller means.
pub fn history_outcome_from_i32(kind: i32, native_code: i32, has_native_code: bool) -> (outcome:
    Option<HistoryOutcome>)
    ensures
        outcome == outcome_of(kind, native_code, has_native_code),
{
    if kind == ReldexHistoryOutcomeKind::Succeeded as i32 {
        Some(HistoryOutcome::Succeeded)
    } else if kind == ReldexHistoryOutcomeKind::Failed as i32 {
        let native_code = if has_native_code {
            Some(native_code)
        } else {
            None
        };
        Some(HistoryOutcome::Failed { native_code })
    } else if kind == ReldexHistoryOutcomeKind::Cancelled as i32 {
        Some(HistoryOutcome::Cancelled)
    } else if kind == ReldexHistoryOutcomeKind::TimedOut as i32 {
        Some(HistoryOutcome::TimedOut)
    } else {
        None
    }
}

/// An outcome that is flattened and read back is the same outcome.
pub proof fn history_outcome_round_trip(outcome: HistoryOutcome)
    requires
        outcome != HistoryOutcome::Unrecognized,
    ensures
        ({
            let (kind, native_code, has_native_code) = flat_outcome(outcome);
            outcome_of(kind as i32, native_code, has_native_code) == Some(outcome)
        }),
{
}

/// The store's signed id as the unsigned number with the same bits.
pub open spec fn shown_history_id(id: i64) -> u64 {
    if id < 0 {
        (id + 0x1_0000_0000_0000_0000) as u64
    } else {
        id as u64
    }
}

/// The signed id with the same bits as a caller's number.
pub open spec fn meant_history_id(value: u64) -> i64 {
    if value > i64::MAX {
        (value - 0x1_0000_0000_0000_0000) as i64
    } else {
        value as i64
    }
}

/// The store's signed id as it is handed out.
pub fn history_id_to_ffi(id: i64) -> (shown: u64)
    ensures
        shown == shown_history_id(id),
{
    assert(id < 0 ==> #[verifier::truncate] (id as u64) == id + 0x1_0000_0000_0000_0000)
        by (bit_vector);
    #[verifier::truncate] (id as u64)
}

/// The store's signed id of a caller's number.
pub fn history_id_from_ffi(value: u64) -> (id: i64)
    ensures
        id == meant_history_id(value),
{
    assert(value > 0x7fff_ffff_ffff_ffff ==> #[verifier::truncate] (value as i64) == value
        - 0x1_0000_0000_0000_0000) by (bit_vector);
    #[verifier::truncate] (value as i64)
}

/// Ids cross in both directions without loss.
pub proof fn history_id_round_trip(id: i64, value: u64)
    ensures
        meant_history_id(shown_history_id(id)) == id,
        shown_history_id(meant_history_id(value)) == value,
{
}

/// A statement to record.
#[derive(Debug, Clone)]
pub struct HistoryEntry {
    pub profile: [u8; 16],
    /// Milliseconds since 1970.
    pub executed_at: i64,
    pub statement: String,
    pub outcome: HistoryOutcome,
    pub elapsed_ms: u64,
    pub row_count: Option<u64>,
}

/// Which part of a history is asked for: at most `limit` records, older than
/// `before` where there is one.
#[derive(Debug, Clone, Copy, PartialEq, Eq, Structural)]
pub struct HistoryPage {
    pub limit: u32,
    pub before: Option<i64>,
}

/// A recorded statement.
#[derive(Debug, Clone)]
pub struct HistoryRecord {
    pub id: i64,
    /// Milliseconds since 1970.
    pub executed_at: i64,
    pub statement: String,
    pub outcome: HistoryOutcome,
    pub elapsed_ms: u64,
    pub row_count: Option<u64>,
}

/// A record as a caller is shown it.
#[derive(Debug)]
pub struct StoredHistoryRecord<T> {
    pub id: u64,
    pub executed_at: u64,
    pub statement: T,
    pub outcome_kind: i32,
    pub native_code: i32,
    pub has_native_code: bool,
    pub elapsed_ms: u64,
    pub row_count: u64,
    pub has_row_count: bool,
}

impl View for StoredHistoryRecord<OwnedStr> {
    type V = StoredHistoryRecord<Seq<char>>;

    open spec fn view(&self) -> StoredHistoryRecord<Seq<char>> {
        StoredHistoryRecord {
            id: self.id,
            executed_at: self.executed_at,
            statement: self.statement@,
            outcome_kind: self.outcome_kind,
            native_code: self.native_code,
            has_native_code: self.has_native_code,
            elapsed_ms: self.elapsed_ms,
            row_count: self.row_count,
            has_row_count: self.has_row_count,
        }
    }
}

/// A record as a caller is shown it.
pub open spec fn shown_record(record: HistoryRecord) -> StoredHistoryRecord<Seq<char>> {
    let (kind, native_code, has_native_code) = flat_outcome(record.outcome);
    StoredHistoryRecord {
        id: shown_history_id(record.id),
        executed_at: shown_millis(record.executed_at),
        statement: record.statement@,
        outcome_kind: kind as i32,
        native_code,
        has_native_code,
        elapsed_ms: record.elapsed_ms,
        row_count: match record.row_count {
            Some(count) => count,
            None => 0,
        },
        has_row_count: record.row_count is Some,
    }
}

impl StoredHistoryRecord<OwnedStr> {
    /// A record as a caller is shown it.
    pub fn from_record(record: &HistoryRecord) -> (stored: Self)
        ensures
            stored@ == shown_record(*record),
    {
        let (outcome_kind, native_code, has_native_code): (ReldexHistoryOutcomeKind, i32, bool) =
            split_history_outcome(record.outcome);
        let row_count: u64 = match record.row_count {
            Some(count) => count,
            None => 0,
        };
        StoredHistoryRecord {
            id: history_id_to_ffi(record.id),
            executed_at: millis_to_ffi(record.executed_at),
            statement: OwnedStr::new(record.statement.clone()),
            outcome_kind: outcome_kind as i32,
            native_code,
            has_native_code,
            elapsed_ms: record.elapsed_ms,
            row_count,
            has_row_count: record.row_count.is_some(),
        }
    }

    /// The record's view, `valid` bytes of it being valid.
    pub fn show(&self, valid: u32) -> (view: ReldexHistoryRecordView<'_>)
        ensures
            view.struct_size == valid,
            view.shows(self@),
    {
        ReldexHistoryRecordView {
            struct_size: valid,
            id: self.id,
            executed_at: self.executed_at,
            statement: self.statement.as_reldex_str(),
            outcome_kind: self.outcome_kind,
            native_code: self.native_code,
            has_native_code: self.has_native_code,
            elapsed_ms: self.elapsed_ms,
            row_count: self.row_count,
            has_row_count: self.has_row_count,
        }
    }
}

/// One record, its statement borrowed from the list it came from.
#[derive(Debug, Clone, Copy)]
pub struct ReldexHistoryRecordView<'a> {
    /// How many bytes of it are valid.
    pub struct_size: u32,
    pub id: u64,
    /// Milliseconds since 1970.
    pub executed_at: u64,
    /// Verbatim.
    pub statement: ReldexStr<'a>,
    /// A [`ReldexHistoryOutcomeKind`].
    pub outcome_kind: i32,
    pub native_code: i32,
    pub has_native_code: bool,
    pub elapsed_ms: u64,
    /// Rows affected or returned.
    pub row_count: u64,
    pub has_row_count: bool,
}

impl<'a> ReldexHistoryRecordView<'a> {
    /// Whether this shows `record`.
    pub open spec fn shows(self, record: StoredHistoryRecord<Seq<char>>) -> bool {
        &&& self.id == record.id
        &&& self.executed_at == record.executed_at
        &&& self.statement.carries(record.statement)
        &&& self.outcome_kind == record.outcome_kind
        &&& self.native_code == record.native_code
        &&& self.has_native_code == record.has_native_code
        &&& self.elapsed_ms == record.elapsed_ms
        &&& self.row_count == record.row_count
        &&& self.has_row_count == record.has_row_count
    }
}

/// A page of history, owned by the caller from the moment the reply that carries
/// it is drained.
#[derive(Debug)]
pub struct ReldexHistoryList {
    records: Vec<StoredHistoryRecord<OwnedStr>>,
}

/// The records of a page as a caller is shown them.
pub open spec fn shown_records(records: Seq<HistoryRecord>) -> Seq<StoredHistoryRecord<Seq<char>>> {
    records.map_values(|record: HistoryRecord| shown_record(record))
}

impl View for ReldexHistoryList {
    type V = Seq<StoredHistoryRecord<Seq<char>>>;

    closed spec fn view(&self) -> Seq<StoredHistoryRecord<Seq<char>>> {
        self.records@.map_values(|record: StoredHistoryRecord<OwnedStr>| record@)
    }
}

impl ReldexHistoryList {
    /// Takes records across, counting the object that carries them.
    pub fn new(live: &mut LiveCounters, records: &Vec<HistoryRecord>) -> (list: Self)
        ensures
            list@ == shown_records(records@),
            *final(live) == old(live).plus(Kind::WorkspaceObject),
    {
        live.created(Kind::WorkspaceObject);
        let mut stored: Vec<StoredHistoryRecord<OwnedStr>> = Vec::new();
        let mut index: usize = 0;
        while index < records.len()
            invariant
                index <= records@.len(),
                stored@.len() == index,
                forall|i: int|
                    0 <= i < index ==> (#[trigger] stored@[i])@ == shown_record(records@[i]),
            decreases records@.len() - index,
        {
            stored.push(StoredHistoryRecord::from_record(&records[index]));
            index += 1;
        }
        let list = ReldexHistoryList { records: stored };
        assert(list@ =~= shown_records(records@));
        list
    }
}

/// How many records there are.
pub fn reldex_history_list_count(
    boundary: &mut Boundary,
    list: Option<&ReldexHistoryList>,
) -> (count: usize)
    ensures
        old(boundary)@.in_waker ==> count == 0 && final(boundary)@ == old(boundary)@.refused(),
        !old(boundary)@.in_waker ==> {
            &&& count == match list {
                Some(list) => list@.len(),
                None => 0,
            }
            &&& final(boundary)@ == old(boundary)@
        },
{
    if boundary.refuse_reentrant() {
        return 0;
    }
    match list {
        Some(list) => list.records.len(),
        None => 0,
    }
}

/// Shows record `index`. `out` is how many bytes the caller's struct takes, or
/// nothing where it was refused. Nothing is shown where there is no such record
/// or no place for it.
pub fn reldex_history_list_get<'a>(
    boundary: &mut Boundary,
    list: Option<&'a ReldexHistoryList>,
    index: usize,
    out: Option<u32>,
) -> (view: Option<ReldexHistoryRecordView<'a>>)
    ensures
        old(boundary)@.in_waker ==> view is None && final(boundary)@ == old(boundary)@.refused(),
        !old(boundary)@.in_waker ==> {
            &&& final(boundary)@ == old(boundary)@
            &&& match (list, out) {
                (Some(list), Some(valid)) => if index < list@.len() {
                    view matches Some(view) && view.struct_size == valid && view.shows(
                        list@[index as int],
                    )
                } else {
                    view is None
                },
                _ => view is None,
            }
        },
{
    if boundary.refuse_reentrant() {
        return None;
    }
    match (list, out) {
        (Some(list), Some(valid)) => if index < list.records.len() {
            Some(list.records[index].show(valid))
        } else {
            None
        },
        _ => None,
    }
}

/// Releases a page. Nothing to release is no failure; a refused call leaves the
/// page with the caller.
pub fn reldex_history_list_release(
    boundary: &mut Boundary,
    list: Option<ReldexHistoryList>,
) -> (kept: Option<ReldexHistoryList>)
    ensures
        old(boundary)@.in_waker ==> kept == list && final(boundary)@ == old(boundary)@.refused(),
        !old(boundary)@.in_waker ==> kept is None && final(boundary)@ == if list is Some {
            old(boundary)@.minus(Kind::WorkspaceObject)
        } else {
            old(boundary)@
        },
{
    if boundary.refuse_reentrant() {
        return list;
    }
    if list.is_some() {
        boundary.live.destroyed(Kind::WorkspaceObject);
    }
    None
}

/// A page of history is shown record by record, in the order it came in: the id,
/// the time, the statement verbatim, how it ended by number, with its native code
/// and its row count where there is one, and how long it took.
pub proof fn a_record_is_shown_as_it_was_kept(
    live: &mut LiveCounters,
    records: Vec<HistoryRecord>,
    list: ReldexHistoryList,
    boundary: &mut Boundary,
    index: usize,
    valid: u32,
    view: Option<ReldexHistoryRecordView<'_>>,
    count: usize,
)
    requires
        call_ensures(ReldexHistoryList::new, (live, &records), list),
        !old(boundary)@.in_waker,
        call_ensures(reldex_history_list_count, (boundary, Some(&list)), count),
        call_ensures(reldex_history_list_get, (boundary, Some(&list), index, Some(valid)), view),
    ensures
        count == records@.len(),
        view is Some <==> index < records@.len(),
        view matches Some(view) ==> {
            let kept = records@[index as int];
            &&& view.struct_size == valid
            &&& kept.id >= 0 ==> view.id == kept.id
            &&& kept.id < 0 ==> view.id == kept.id + 0x1_0000_0000_0000_0000
            &&& kept.executed_at >= 0 ==> view.executed_at == kept.executed_at
            &&& view.statement.text() == Some(kept.statement@)
            &&& kept.outcome is Succeeded <==> view.outcome_kind == 1
            &&& kept.outcome is Failed <==> view.outcome_kind == 2
            &&& kept.outcome is Cancelled <==> view.outcome_kind == 3
            &&& kept.outcome is TimedOut <==> view.outcome_kind == 4
            &&& view.has_native_code <==> (kept.outcome matches HistoryOutcome::Failed {
                native_code,
            } && native_code is Some)
            &&& view.has_native_code ==> kept.outcome->native_code == Some(view.native_code)
            &&& !view.has_native_code ==> view.native_code == 0
            &&& view.elapsed_ms == kept.elapsed_ms
            &&& view.has_row_count <==> kept.row_count is Some
            &&& view.has_row_count ==> kept.row_count == Some(view.row_count)
            &&& !view.has_row_count ==> view.row_count == 0
        },
{
    if index < records@.len() {
        assert(list@[index as int] == shown_record(records@[index as int]));
    }
}

/// An outcome is the one its number names, and carries a native code only where it
/// is a failure that has one. A number that names none is refused.
pub proof fn an_outcome_is_known_by_its_number(
    kind: i32,
    native_code: i32,
    has_native_code: bool,
    outcome: Option<HistoryOutcome>,
)
    requires
        call_ensures(history_outcome_from_i32, (kind, native_code, has_native_code), outcome),
    ensures
        outcome is Some <==> 1 <= kind <= 4,
        kind == 1 <==> outcome == Some(HistoryOutcome::Succeeded),
        kind == 2 <==> outcome matches Some(HistoryOutcome::Failed { native_code: code }),
        kind == 3 <==> outcome == Some(HistoryOutcome::Cancelled),
        kind == 4 <==> outcome == Some(HistoryOutcome::TimedOut),
        outcome matches Some(HistoryOutcome::Failed { native_code: code }) ==> {
            &&& code is Some <==> has_native_code
            &&& code matches Some(code) ==> code == native_code
        },
{
}

/// An id that was handed out names the record it was handed out for.
pub proof fn an_id_names_its_record(id: i64, shown: u64, meant: i64)
    requires
        call_ensures(history_id_to_ffi, (id,), shown),
        call_ensures(history_id_from_ffi, (shown,), meant),
    ensures
        meant == id,
        id >= 0 ==> shown == id,
{
}

/// A page is counted from when it is taken in until it is released; a refused
/// release leaves it with its caller.
pub proof fn a_page_is_counted_until_released(
    live: &mut LiveCounters,
    records: Vec<HistoryRecord>,
    list: ReldexHistoryList,
    boundary: &mut Boundary,
    kept: Option<ReldexHistoryList>,
)
    requires
        call_ensures(ReldexHistoryList::new, (live, &records), list),
        call_ensures(reldex_history_list_release, (boundary, Some(list)), kept),
    ensures
        *final(live) == (LiveCounters {
            misc_objects: next_count(old(live).misc_objects),
            ..*old(live)
        }),
        !old(boundary)@.in_waker ==> {
            &&& kept is None
            &&& old(boundary)@.live == *final(live) ==> final(boundary)@.live == *old(live)
            &&& final(boundary)@.last_error == old(boundary)@.last_error
        },
        old(boundary)@.in_waker ==> {
            &&& kept == Some(list)
            &&& final(boundary)@.live.misc_objects == old(boundary)@.live.misc_objects
        },
{
}

} // verus!
