//! Statement spans on their way to a caller's array.

use reldex_ffi::splitter::{
    reldex_split_statements, EndedBy, ReldexEndedBy, ReldexSplitKind, ReldexStatementSpan,
    SplitKind, StatementSpan,
};
use reldex_ffi::status::Boundary;
use reldex_ffi::strings::ReldexStr;

const TEXT: &str = "SELECT 1 FROM dual;\nSELECT 2 FROM dual;\n";

/// What the dialect's splitter finds in [`TEXT`].
fn found() -> Vec<StatementSpan> {
    vec![
        StatementSpan {
            kind: SplitKind::Plain,
            ended_by: EndedBy::Terminator,
            content_start: 0,
            content_end: 18,
            full_end: 19,
            start_line: 1,
            start_column: 1,
            terminated: true,
        },
        StatementSpan {
            kind: SplitKind::Plain,
            ended_by: EndedBy::Terminator,
            content_start: 20,
            content_end: 38,
            full_end: 39,
            start_line: 2,
            start_column: 1,
            terminated: true,
        },
    ]
}

fn sql() -> ReldexStr<'static> {
    ReldexStr {
        ptr: Some(TEXT.as_bytes()),
        len: TEXT.len(),
    }
}

#[test]
fn a_two_statement_text_is_split_with_byte_ranges() {
    let mut boundary = Boundary::new();
    let mut spans = vec![ReldexStatementSpan::default(); 4];
    let total = reldex_split_statements(&mut boundary, sql(), &found(), Some(&mut spans));
    assert_eq!(total, 2);
    assert_eq!(spans[0].kind, ReldexSplitKind::Plain as i32);
    assert_eq!(
        &TEXT[spans[0].content_start..spans[0].content_end],
        "SELECT 1 FROM dual"
    );
    assert_eq!(
        &TEXT[spans[1].content_start..spans[1].content_end],
        "SELECT 2 FROM dual"
    );
    assert!(spans[0].terminated);
    assert_eq!(spans[1].start_line, 2);
    assert_eq!(spans[2], ReldexStatementSpan::default(), "not written to");

    let mut one = vec![ReldexStatementSpan::default(); 1];
    let total_again = reldex_split_statements(&mut boundary, sql(), &found(), Some(&mut one));
    assert_eq!(total_again, 2, "the true count, even though only one fit");
    assert_eq!(one[0], spans[0]);

    let sized = reldex_split_statements(&mut boundary, sql(), &found(), None);
    assert_eq!(sized, 2);
}

#[test]
fn invalid_utf8_is_refused_rather_than_read() {
    let mut boundary = Boundary::new();
    let bytes: &[u8] = b"\xff\xfe";
    let sql = ReldexStr {
        ptr: Some(bytes),
        len: bytes.len(),
    };
    let mut spans = vec![ReldexStatementSpan::default(); 2];
    let total = reldex_split_statements(&mut boundary, sql, &found(), Some(&mut spans));
    assert_eq!(total, 0);
    assert_eq!(spans, vec![ReldexStatementSpan::default(); 2]);
    let error = boundary.take_last_error().expect("a refused call records why");
    assert_eq!(
        error.message(),
        "reldex-ffi: reldex_split_statements: `text` is null or is not valid UTF-8"
    );
}

#[test]
fn kinds_and_endings_have_stable_numbers() {
    assert_eq!(ReldexSplitKind::from_kind(SplitKind::Block) as i32, 2);
    assert_eq!(
        ReldexSplitKind::from_kind(SplitKind::Unrecognized) as i32,
        0
    );
    let endings = [
        EndedBy::Terminator,
        EndedBy::SlashLine,
        EndedBy::InferredBlockEnd,
        EndedBy::EndOfInput,
    ];
    for (index, ended_by) in endings.into_iter().enumerate() {
        assert_eq!(
            ReldexEndedBy::from_ended_by(ended_by) as i32,
            index as i32 + 1
        );
    }
    assert_eq!(
        ReldexEndedBy::from_ended_by(EndedBy::Unrecognized) as i32,
        0
    );
}

#[test]
fn a_split_from_inside_a_waker_finds_nothing() {
    let mut boundary = Boundary::new();
    boundary.enter_waker();
    assert_eq!(
        reldex_split_statements(&mut boundary, sql(), &found(), None),
        0
    );
}
