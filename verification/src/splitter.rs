//! Where the statements of a text are. The dialect's own splitter finds them;
//! here its spans are turned into stable numbers and written to a caller's
//! array, which may be too small for all of them.

use vstd::prelude::*;

use crate::status::Boundary;
use crate::strings::ReldexStr;

verus! {

/// What kind of statement a span holds, as the splitter says it.
#[derive(Debug, Clone, Copy, PartialEq, Eq, Structural)]
pub enum SplitKind {
    Plain,
    Block,
    /// A kind this library predates.
    Unrecognized,
}

/// Whether a statement is plain or a block.
///
/// `0` is reserved for a kind the caller's header predates.
#[derive(Debug, Clone, Copy, PartialEq, Eq, Structural)]
pub enum ReldexSplitKind {
    /// A kind this header does not know.
    Unknown,
    /// An ordinary statement.
    Plain,
    /// An anonymous block, or DDL that creates a stored unit.
    Block,
}

impl ReldexSplitKind {
    /// A kind's number.
    pub open spec fn of(kind: SplitKind) -> Self {
        match kind {
            SplitKind::Plain => ReldexSplitKind::Plain,
            SplitKind::Block => ReldexSplitKind::Block,
            SplitKind::Unrecognized => ReldexSplitKind::Unknown,
        }
    }

    /// A kind's number.
    pub fn from_kind(kind: SplitKind) -> (stable: Self)
        ensures
            stable == Self::of(kind),
    {
        match kind {
            SplitKind::Plain => ReldexSplitKind::Plain,
            SplitKind::Block => ReldexSplitKind::Block,
            SplitKind::Unrecognized => ReldexSplitKind::Unknown,
        }
    }
}

/// Why a statement ended where it did, as the splitter says it.
#[derive(Debug, Clone, Copy, PartialEq, Eq, Structural)]
pub enum EndedBy {
    Terminator,
    SlashLine,
    InferredBlockEnd,
    EndOfInput,
    /// A reason this library predates.
    Unrecognized,
}

/// Why a statement ended where it did.
///
/// `0` is reserved for a value the caller's header predates.
#[derive(Debug, Clone, Copy, PartialEq, Eq, Structural)]
pub enum ReldexEndedBy {
    /// A value this header does not know.
    Unknown,
    /// The dialect's own terminator.
    Terminator,
    /// A line with nothing but a slash.
    SlashLine,
    /// The end of the block's own structure.
    InferredBlockEnd,
    /// The end of the text: a truncated script.
    EndOfInput,
}

impl ReldexEndedBy {
    /// A reason's number.
    pub open spec fn of(ended_by: EndedBy) -> Self {
        match ended_by {
            EndedBy::Terminator => ReldexEndedBy::Terminator,
            EndedBy::SlashLine => ReldexEndedBy::SlashLine,
            EndedBy::InferredBlockEnd => ReldexEndedBy::InferredBlockEnd,
            EndedBy::EndOfInput => ReldexEndedBy::EndOfInput,
            EndedBy::Unrecognized => ReldexEndedBy::Unknown,
        }
    }

    /// A reason's number.
    pub fn from_ended_by(ended_by: EndedBy) -> (stable: Self)
        ensures
            stable == Self::of(ended_by),
    {
        match ended_by {
            EndedBy::Terminator => ReldexEndedBy::Terminator,
            EndedBy::SlashLine => ReldexEndedBy::SlashLine,
            EndedBy::InferredBlockEnd => ReldexEndedBy::InferredBlockEnd,
            EndedBy::EndOfInput => ReldexEndedBy::EndOfInput,
            EndedBy::Unrecognized => ReldexEndedBy::Unknown,
        }
    }
}

/// One statement that the splitter found. Offsets are in bytes; line and column
/// count from one, the column in Unicode scalar values.
#[derive(Debug, Clone, Copy, PartialEq, Eq, Structural)]
pub struct StatementSpan {
    pub kind: SplitKind,
    pub ended_by: EndedBy,
    pub content_start: usize,
    pub content_end: usize,
    pub full_end: usize,
    pub start_line: u32,
    pub start_column: u32,
    pub terminated: bool,
}

/// One statement, as offsets into the caller's own text.
#[derive(Debug, Clone, Copy, PartialEq, Eq, Structural)]
pub struct ReldexStatementSpan {
    /// A [`ReldexSplitKind`].
    pub kind: i32,
    /// A [`ReldexEndedBy`].
    pub ended_by: i32,
    /// Where the statement's own text begins.
    pub content_start: usize,
    /// One past the statement's own text, without its terminator.
    pub content_end: usize,
    /// One past the statement's terminator.
    pub full_end: usize,
    pub start_line: u32,
    pub start_column: u32,
    /// Whether there was an explicit terminator.
    pub terminated: bool,
}

impl ReldexStatementSpan {
    /// A span nothing was written to.
    pub open spec fn nothing() -> Self {
        ReldexStatementSpan {
            kind: ReldexSplitKind::Unknown as i32,
            ended_by: ReldexEndedBy::Unknown as i32,
            content_start: 0,
            content_end: 0,
            full_end: 0,
            start_line: 0,
            start_column: 0,
            terminated: false,
        }
    }

    /// A span as it is handed out.
    pub open spec fn of(span: StatementSpan) -> Self {
        ReldexStatementSpan {
            kind: ReldexSplitKind::of(span.kind) as i32,
            ended_by: ReldexEndedBy::of(span.ended_by) as i32,
            content_start: span.content_start,
            content_end: span.content_end,
            full_end: span.full_end,
            start_line: span.start_line,
            start_column: span.start_column,
            terminated: span.terminated,
        }
    }

    /// A span as it is handed out.
    pub fn from_span(span: &StatementSpan) -> (stable: Self)
        ensures
            stable == Self::of(*span),
    {
        ReldexStatementSpan {
            kind: ReldexSplitKind::from_kind(span.kind) as i32,
            ended_by: ReldexEndedBy::from_ended_by(span.ended_by) as i32,
            content_start: span.content_start,
            content_end: span.content_end,
            full_end: span.full_end,
            start_line: span.start_line,
            start_column: span.start_column,
            terminated: span.terminated,
        }
    }
}

impl Default for ReldexStatementSpan {
    fn default() -> (span: Self)
        ensures
            span == Self::nothing(),
    {
        ReldexStatementSpan {
            kind: ReldexSplitKind::Unknown as i32,
            ended_by: ReldexEndedBy::Unknown as i32,
            content_start: 0,
            content_end: 0,
            full_end: 0,
            start_line: 0,
            start_column: 0,
            terminated: false,
        }
    }
}

/// A caller's array once as many of `spans` as fit were written to it.
pub open spec fn filled(
    out: Seq<ReldexStatementSpan>,
    spans: Seq<StatementSpan>,
) -> Seq<ReldexStatementSpan> {
    Seq::new(
        out.len(),
        |i: int|
            if i < spans.len() {
                ReldexStatementSpan::of(spans[i])
            } else {
                out[i]
            },
    )
}

/// Writes the statements of `text` to the caller's array, as many as fit, and
/// says how many there are. `spans` are what the splitter finds in the text;
/// without an array they are only counted.
pub fn reldex_split_statements(
    boundary: &mut Boundary,
    text: ReldexStr<'_>,
    spans: &Vec<StatementSpan>,
    out: Option<&mut Vec<ReldexStatementSpan>>,
) -> (total: usize)
    requires
        text.readable(),
    ensures
        old(boundary)@.in_waker ==> {
            &&& total == 0
            &&& final(boundary)@ == old(boundary)@.refused()
            &&& out matches Some(out) ==> final(out)@ == out@
        },
        !old(boundary)@.in_waker && text.text() is None ==> {
            &&& total == 0
            &&& final(boundary)@ == old(boundary)@.argument_error(
                "reldex_split_statements: `text` is null or is not valid UTF-8"@,
            )
            &&& out matches Some(out) ==> final(out)@ == out@
        },
        !old(boundary)@.in_waker && text.text() is Some ==> {
            &&& total == spans@.len()
            &&& final(boundary)@ == old(boundary)@
            &&& out matches Some(out) ==> final(out)@ == filled(out@, spans@)
        },
{
    if boundary.refuse_reentrant() {
        return 0;
    }
    if text.as_str().is_none() {
        boundary.set_last_argument_error(
            "reldex_split_statements: `text` is null or is not valid UTF-8",
        );
        return 0;
    }
    if let Some(out) = out {
        fill(out, spans);
    }
    spans.len()
}

/// Writes as many spans as fit.
fn fill(out: &mut Vec<ReldexStatementSpan>, spans: &Vec<StatementSpan>)
    ensures
        final(out)@ == filled(old(out)@, spans@),
{
    let capacity: usize = out.len();
    let ghost before = out@;
    let mut index: usize = 0;
    while index < spans.len() && index < capacity
        invariant
            before == old(out)@,
            capacity == before.len(),
            out@.len() == before.len(),
            index <= spans@.len(),
            index <= capacity,
            forall|i: int| 0 <= i < index ==> out@[i] == ReldexStatementSpan::of(spans@[i]),
            forall|i: int| index <= i < before.len() ==> out@[i] == before[i],
        decreases capacity - index,
    {
        out.set(index, ReldexStatementSpan::from_span(&spans[index]));
        index += 1;
    }
    assert(out@ =~= filled(before, spans@));
}

/// An array that is too small holds the first statements, and the answer still
/// says how many there are: a second call with an array of that many holds them
/// all.
pub proof fn a_large_enough_array_holds_every_statement(
    out: Seq<ReldexStatementSpan>,
    spans: Seq<StatementSpan>,
)
    ensures
        out.len() >= spans.len() ==> filled(out, spans).take(spans.len() as int)
            == spans.map_values(|span: StatementSpan| ReldexStatementSpan::of(span)),
        out.len() <= spans.len() ==> filled(out, spans) == spans.take(
            out.len() as int,
        ).map_values(|span: StatementSpan| ReldexStatementSpan::of(span)),
{
    if out.len() >= spans.len() {
        assert(filled(out, spans).take(spans.len() as int) =~= spans.map_values(
            |span: StatementSpan| ReldexStatementSpan::of(span),
        ));
    }
    if out.len() <= spans.len() {
        assert(filled(out, spans) =~= spans.take(out.len() as int).map_values(
            |span: StatementSpan| ReldexStatementSpan::of(span),
        ));
    }
}

/// The statements of a text are written to the caller's array in their order, each
/// with its own offsets, line, column and terminator, and with its kind and the
/// reason it ended by number. What does not fit is left out and still counted;
/// what is behind the last statement is left as it was.
pub proof fn statements_are_written_in_order(
    boundary: &mut Boundary,
    text: ReldexStr<'_>,
    spans: Vec<StatementSpan>,
    out: Option<&mut Vec<ReldexStatementSpan>>,
    total: usize,
)
    requires
        !old(boundary)@.in_waker,
        text.text() is Some,
        call_ensures(reldex_split_statements, (boundary, text, &spans, out), total),
    ensures
        total == spans@.len(),
        final(boundary)@ == old(boundary)@,
        out matches Some(out) ==> {
            &&& final(out)@.len() == out@.len()
            &&& forall|i: int|
                spans@.len() <= i < out@.len() ==> #[trigger] final(out)@[i] == out@[i]
            &&& forall|i: int|
                0 <= i < spans@.len() && i < out@.len() ==> {
                    let shown = #[trigger] final(out)@[i];
                    let span = spans@[i];
                    &&& shown.content_start == span.content_start
                    &&& shown.content_end == span.content_end
                    &&& shown.full_end == span.full_end
                    &&& shown.start_line == span.start_line
                    &&& shown.start_column == span.start_column
                    &&& shown.terminated == span.terminated
                    &&& shown.kind == 1 <==> span.kind == SplitKind::Plain
                    &&& shown.kind == 2 <==> span.kind == SplitKind::Block
                    &&& shown.kind == 0 <==> span.kind == SplitKind::Unrecognized
                    &&& shown.ended_by == 1 <==> span.ended_by == EndedBy::Terminator
                    &&& shown.ended_by == 2 <==> span.ended_by == EndedBy::SlashLine
                    &&& shown.ended_by == 3 <==> span.ended_by == EndedBy::InferredBlockEnd
                    &&& shown.ended_by == 4 <==> span.ended_by == EndedBy::EndOfInput
                    &&& shown.ended_by == 0 <==> span.ended_by == EndedBy::Unrecognized
                }
        },
{
}

} // verus!
