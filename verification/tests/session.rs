//! Sessions on a hub: opening, requests, the events they bring, and their end.

use std::collections::VecDeque;

use reldex_ffi::batch::{
    reldex_batch_column_info, Column, ColumnData, ColumnKind, ColumnMetadata, FetchedBatch,
    ResultColumns,
};
use reldex_ffi::control::{
    finish_abandon, finish_cancel, finish_open_session, reldex_hub_open_session,
    reldex_session_abandon, reldex_session_connect_warnings, reldex_session_request_cancel,
    Abandoned, CancelOutcome, ReldexAbandonOutcome, ReldexCancelOutcome,
};
use reldex_ffi::counters::reldex_live_counts;
use reldex_ffi::error::{DbError, ErrorKind, ReldexErrorKind, ReldexSessionState, SessionLifecycle};
use reldex_ffi::event::{
    reldex_server_output_lines_count, reldex_server_output_lines_get, ReldexCloseOutcome,
    ReldexCompletedOperation, ReldexEvent, ReldexEventKind, ReldexServerOutputMode,
    ReldexStatementKind,
};
use reldex_ffi::format::{reldex_text_arena_count, reldex_text_arena_create};
use reldex_ffi::hub::{
    reldex_hub_create, reldex_hub_destroy, reldex_hub_list_sessions, reldex_hub_next_event,
    reldex_hub_pending_events, reldex_hub_session_count, reldex_hub_set_waker, HubEnd, Pending,
    ReldexHub, TakenEvent,
};
use reldex_ffi::mock::{
    build_driver, reldex_mock_release_block, reldex_mock_statement, ReldexMockFailure,
    ReldexMockScenarioConfig, ReldexMockStatement, ReldexOpenOptions,
};
use reldex_ffi::session::{
    finish_close, finish_submit, reldex_session_close, reldex_session_close_result,
    reldex_session_commit, reldex_session_execute, reldex_session_fetch, reldex_session_ping,
    reldex_session_result_column, reldex_session_result_column_count, reldex_session_rollback,
    reldex_session_rollback_to_savepoint, reldex_session_savepoint,
    reldex_session_set_server_output, CancelKind, CloseDisposition, CloseError, ExecuteOutcome,
    ReldexCancelKind, ReldexCloseDisposition, ServerOutputSetting, SessionCommand, StatementKind,
};
use reldex_ffi::slots::TextSlots;
use reldex_ffi::status::{Boundary, ReldexStatus};
use reldex_ffi::strings::{InParam, ReldexStr};
use reldex_ffi::translate::{translate, CompletedOperation, SessionEvent, SessionFacts};

const FULL: u32 = 192;

fn text(value: &str) -> ReldexStr<'_> {
    ReldexStr {
        ptr: Some(value.as_bytes()),
        len: value.len(),
    }
}

fn usable() -> SessionFacts {
    SessionFacts {
        ready: true,
        lifecycle: SessionLifecycle::Usable,
        dropped_lines: 0,
    }
}

fn error(kind: ErrorKind, message: &str) -> DbError {
    DbError::new(kind, message.to_owned())
}

fn last_message(boundary: &mut Boundary) -> String {
    let error = boundary.take_last_error().expect("a failed call says why");
    error.message().to_owned()
}

fn hub(boundary: &mut Boundary) -> ReldexHub {
    reldex_hub_create(boundary).expect("a hub")
}

/// Opens session `id` with the default options.
fn open(boundary: &mut Boundary, hub: &mut ReldexHub, id: u64, request: u64) -> u64 {
    let opening = reldex_hub_open_session(boundary, Some(hub), InParam::Null, request, true)
        .expect("the default options open");
    let status = finish_open_session(boundary, hub, &opening, Some(id));
    assert_eq!(status, ReldexStatus::Okay);
    opening.request
}

fn opened(session: u64, request: u64) -> SessionEvent {
    SessionEvent::Opened {
        session,
        request,
        connection: 77,
        cancel_kind: CancelKind::Native,
        warnings: 2,
    }
}

/// Delivers one event to a caller of this version.
fn deliver(boundary: &mut Boundary, hub: &mut ReldexHub, event: SessionEvent) -> ReldexEvent {
    deliver_with(boundary, hub, event, usable())
}

fn deliver_with(
    boundary: &mut Boundary,
    hub: &mut ReldexHub,
    event: SessionEvent,
    facts: SessionFacts,
) -> ReldexEvent {
    let mut queue = VecDeque::new();
    queue.push_back(TakenEvent { event, facts });
    let told = reldex_hub_next_event(boundary, Some(hub), &mut queue, Some(FULL), FULL)
        .expect("one event is queued");
    assert!(queue.is_empty());
    told
}

/// A hub with session 9 open.
fn open_hub(boundary: &mut Boundary) -> ReldexHub {
    let mut hub = hub(boundary);
    let request = open(boundary, &mut hub, 9, 1);
    let told = deliver(boundary, &mut hub, opened(9, request));
    assert_eq!(told.kind, ReldexEventKind::Opened as i32);
    hub
}

fn columns() -> Vec<ColumnMetadata> {
    let column = |name: &str, declared| ColumnMetadata {
        name: name.to_owned(),
        declared,
        nullable: None,
        precision: None,
        scale: None,
        max_size_bytes: None,
        native_type_name: None,
    };
    vec![
        column("ID", ColumnKind::Number),
        column("LABEL", ColumnKind::Text),
    ]
}

fn query(result: u64) -> ExecuteOutcome {
    ExecuteOutcome {
        result: Some(result),
        columns: columns(),
        rows_affected: None,
        statement_kind: StatementKind::Query,
        committed_implicitly: false,
    }
}

/// Executes a query on session 9 whose result the core calls `core_result`.
fn run_query(boundary: &mut Boundary, hub: &mut ReldexHub, core_result: u64) -> u64 {
    let submission =
        reldex_session_execute(boundary, Some(hub), 9, true, 20, text("SELECT 1"), 0).expect("ok");
    assert_eq!(
        finish_submit(boundary, hub, submission.request, Ok(())),
        ReldexStatus::Okay
    );
    let told = deliver(
        boundary,
        hub,
        SessionEvent::Executed {
            session: 9,
            request: submission.request,
            outcome: Ok(query(core_result)),
        },
    );
    assert_eq!(told.request, 20);
    assert!(told.has_result);
    told.result
}

#[test]
fn a_segment_reply_and_an_unknown_reply_cross_as_notifications() {
    let mut boundary = Boundary::new();
    let mut hub = hub(&mut boundary);
    let request = open(&mut boundary, &mut hub, 1, 1);
    let told = translate(&mut boundary.live, &mut hub, opened(1, request), usable());
    assert_eq!(told.kind, ReldexEventKind::Opened);

    let mut entry = hub.sessions.remove(1).expect("the session is open");
    assert!(entry.handle(true));
    let core_result = 40;
    let key = entry.register_result(core_result, ResultColumns::new(columns()));
    hub.sessions.insert(1, entry);

    let request = hub.begin_request(Pending::caller(3));
    let segment = SessionEvent::FetchedSegment {
        session: 1,
        request,
        result: core_result,
        segment: Ok(250),
    };
    let segment = translate(&mut boundary.live, &mut hub, segment, usable());
    assert_eq!(segment.kind, ReldexEventKind::FetchedSegment);
    assert_eq!(segment.request, 3);
    assert_eq!(segment.result, Some(key));
    assert!(segment.row_count > 0);
    assert!(segment.error.is_none());

    let request = open(&mut boundary, &mut hub, 2, 4);
    translate(&mut boundary.live, &mut hub, opened(2, request), usable());
    let request = hub.begin_request(Pending::caller(6));
    let read = SessionEvent::Unrecognized {
        session: 2,
        request: Some(request),
        reply: true,
    };
    let unknown = translate(&mut boundary.live, &mut hub, read, usable());
    assert_eq!(unknown.kind, ReldexEventKind::Unknown);
    assert_eq!(unknown.request, 6);
    assert_eq!(unknown.session, 2);

    let HubEnd::Destroyed { mut abandoned } = reldex_hub_destroy(&mut boundary, Some(hub)) else {
        panic!("the hub is destroyed");
    };
    abandoned.sort();
    assert_eq!(abandoned, [1, 2]);
    assert_eq!(boundary.live.hubs, 0);
    assert_eq!(boundary.live.sessions, 0);
}

#[test]
fn opening_reports_the_connection_and_its_reply() {
    let mut boundary = Boundary::new();
    let mut hub = hub(&mut boundary);
    assert_eq!(boundary.live.hubs, 1);
    let request = open(&mut boundary, &mut hub, 9, 31);
    assert_eq!(boundary.live.sessions, 1);
    let told = deliver(&mut boundary, &mut hub, opened(9, request));
    assert_eq!(told.struct_size, FULL);
    assert_eq!(told.kind, ReldexEventKind::Opened as i32);
    assert_eq!(told.session, 9);
    assert_eq!(told.request, 31);
    assert_eq!(told.connection_id, 77);
    assert_eq!(told.cancel_kind, ReldexCancelKind::Native as i32);
    assert_eq!(told.warning_count, 2);
    assert_eq!(told.session_state, ReldexSessionState::Usable as i32);
    assert!(told.error.is_none());
}

#[test]
fn an_open_is_refused_by_what_is_wrong_with_it() {
    let mut boundary = Boundary::new();
    let mut hub = hub(&mut boundary);
    let mut options = ReldexOpenOptions::default();
    options.driver = 99;
    let status = reldex_hub_open_session(
        &mut boundary,
        Some(&mut hub),
        InParam::Given(options),
        1,
        true,
    )
    .err();
    assert_eq!(status, Some(ReldexStatus::InvalidArgument));
    let unsupported = boundary.take_last_error().expect("an error");
    assert_eq!(unsupported.kind(), ReldexErrorKind::Unsupported);

    let refused =
        reldex_hub_open_session(&mut boundary, Some(&mut hub), InParam::Refused, 1, true).err();
    assert_eq!(refused, Some(ReldexStatus::InvalidArgument));
    let unaligned =
        reldex_hub_open_session(&mut boundary, Some(&mut hub), InParam::Null, 1, false).err();
    assert_eq!(unaligned, Some(ReldexStatus::InvalidArgument));
    let without_hub = reldex_hub_open_session(&mut boundary, None, InParam::Null, 1, true).err();
    assert_eq!(without_hub, Some(ReldexStatus::InvalidArgument));
    assert_eq!(hub.pending.len(), 0, "nothing is owed for a refused open");

    let opening = reldex_hub_open_session(&mut boundary, Some(&mut hub), InParam::Null, 1, true)
        .expect("the default options open");
    assert_eq!(hub.pending.len(), 1);
    let status = finish_open_session(&mut boundary, &mut hub, &opening, None);
    assert_eq!(status, ReldexStatus::Error);
    assert_eq!(hub.pending.len(), 0);
    assert_eq!(
        reldex_hub_session_count(&mut boundary, Some(&hub)),
        0,
        "no session without a driver"
    );
}

#[test]
fn a_failed_connect_is_lost_and_an_abandoned_one_closed() {
    let mut boundary = Boundary::new();
    let mut hub = hub(&mut boundary);
    let request = open(&mut boundary, &mut hub, 1, 5);
    let failed = SessionEvent::OpenFailed {
        session: 1,
        request,
        error: error(ErrorKind::Authentication, "denied"),
    };
    let told = deliver(&mut boundary, &mut hub, failed);
    assert_eq!(told.kind, ReldexEventKind::Opened as i32);
    assert_eq!(told.session_state, ReldexSessionState::Lost as i32);
    assert_eq!(told.error.expect("an error").message(), "denied");

    let request = open(&mut boundary, &mut hub, 2, 6);
    let cancelled = SessionEvent::OpenFailed {
        session: 2,
        request,
        error: error(ErrorKind::Cancelled, "abandoned"),
    };
    let told = deliver(&mut boundary, &mut hub, cancelled);
    assert_eq!(told.session_state, ReldexSessionState::Closed as i32);
}

#[test]
fn a_query_is_executed_described_fetched_and_closed() {
    let mut boundary = Boundary::new();
    let mut hub = open_hub(&mut boundary);
    let key = run_query(&mut boundary, &mut hub, 300);
    assert_eq!(key, 1, "keys are handed out in order");
    let second = run_query(&mut boundary, &mut hub, 301);
    assert_eq!(second, 2);

    let count = reldex_session_result_column_count(&mut boundary, Some(&hub), 9, key);
    assert_eq!(count, 2);
    let info = reldex_session_result_column(&mut boundary, Some(&hub), 9, key, 1, Some(72))
        .expect("a column");
    assert_eq!(info.name.as_str(), Some("LABEL"));

    let submission =
        reldex_session_fetch(&mut boundary, Some(&mut hub), 9, true, 21, key, 500).expect("ok");
    assert!(matches!(
        submission.command,
        SessionCommand::Fetch {
            result: 300,
            max_rows: 500
        }
    ));
    let batch = FetchedBatch {
        row_count: 1,
        columns: vec![
            Column {
                nulls: vec![1],
                data: ColumnData::Boolean(vec![false]),
            },
            Column {
                nulls: vec![],
                data: ColumnData::Text(TextSlots::new().push("x")),
            },
        ],
    };
    let fetched = SessionEvent::Fetched {
        session: 9,
        request: submission.request,
        batch: Ok(batch),
    };
    let waiting = reldex_live_counts(&mut boundary, &[&fetched], Some(56)).expect("the counts");
    assert_eq!((waiting.batches, waiting.errors), (1, 0));
    assert_eq!(boundary.live.batches, 0, "nobody holds the batch yet");
    let told = deliver(&mut boundary, &mut hub, fetched);
    let drained = reldex_live_counts(&mut boundary, &[], Some(56)).expect("the counts");
    assert_eq!(drained, waiting, "draining creates nothing");
    assert_eq!(told.kind, ReldexEventKind::Fetched as i32);
    assert_eq!((told.request, told.result, told.row_count), (21, key, 1));
    let batch = told.batch.expect("rows");
    let info =
        reldex_batch_column_info(&mut boundary, Some(&batch), 0, Some(72)).expect("a column");
    assert_eq!(info.name.as_str(), Some("ID"));
    assert_eq!(boundary.live.batches, 1);

    let submission =
        reldex_session_close_result(&mut boundary, Some(&mut hub), 9, true, 22, key).expect("ok");
    assert!(matches!(
        submission.command,
        SessionCommand::CloseResult { result: 300 }
    ));
    let closed = SessionEvent::Completed {
        session: 9,
        request: submission.request,
        operation: CompletedOperation::CloseResult,
        done: Ok(()),
    };
    let told = deliver(&mut boundary, &mut hub, closed);
    assert_eq!(told.kind, ReldexEventKind::ResultClosed as i32);
    assert_eq!(told.result, key);
    let count = reldex_session_result_column_count(&mut boundary, Some(&hub), 9, key);
    assert_eq!(count, 0);
    let gone = reldex_session_fetch(&mut boundary, Some(&mut hub), 9, true, 23, key, 1).err();
    assert_eq!(gone, Some(ReldexStatus::NotFound));
    assert_eq!(run_query(&mut boundary, &mut hub, 302), 3, "no key twice");
}

#[test]
fn a_statement_without_rows_reports_what_it_did() {
    let mut boundary = Boundary::new();
    let mut hub = open_hub(&mut boundary);
    let submission = reldex_session_execute(
        &mut boundary,
        Some(&mut hub),
        9,
        true,
        20,
        text("UPDATE t SET n = 1"),
        2500,
    )
    .expect("ok");
    let SessionCommand::Execute { sql, deadline_ms } = submission.command else {
        panic!("an execute");
    };
    assert_eq!(sql, "UPDATE t SET n = 1");
    assert_eq!(deadline_ms, Some(2500));
    let executed = SessionEvent::Executed {
        session: 9,
        request: submission.request,
        outcome: Ok(ExecuteOutcome {
            result: None,
            columns: vec![],
            rows_affected: Some(3),
            statement_kind: StatementKind::Dml,
            committed_implicitly: true,
        }),
    };
    let told = deliver(&mut boundary, &mut hub, executed);
    assert!(!told.has_result && told.has_rows_affected && told.committed_implicitly);
    assert_eq!(told.rows_affected, 3);
    assert_eq!(told.statement_kind, ReldexStatementKind::Dml as i32);
}

#[test]
fn a_request_is_answered_once_and_only_by_its_own_reply() {
    let mut boundary = Boundary::new();
    let mut hub = open_hub(&mut boundary);
    let submission =
        reldex_session_execute(&mut boundary, Some(&mut hub), 9, true, 55, text("x"), 0)
            .expect("ok");
    let request = submission.request;
    let executing = SessionEvent::Executing {
        session: 9,
        request,
        deadline: Some(1_234),
    };
    let told = deliver(&mut boundary, &mut hub, executing);
    assert_eq!(told.kind, ReldexEventKind::Executing as i32);
    assert_eq!(told.request, 0, "progress is no reply");
    assert_eq!(told.executing_request, 55);
    assert!(told.has_deadline);
    assert_eq!(told.deadline_ms, 1_234);

    let failed = || SessionEvent::Executed {
        session: 9,
        request,
        outcome: Err(error(ErrorKind::Syntax, "no")),
    };
    let lost = SessionFacts {
        ready: true,
        lifecycle: SessionLifecycle::NeedsValidation,
        dropped_lines: 0,
    };
    let told = deliver_with(&mut boundary, &mut hub, failed(), lost);
    assert_eq!(told.request, 55);
    assert_eq!(
        told.session_state,
        ReldexSessionState::NeedsValidation as i32,
        "the state of the session as it is now"
    );
    let again = deliver(&mut boundary, &mut hub, failed());
    assert_eq!(again.request, 0, "the reply has been given");
}

#[test]
fn a_request_that_is_not_taken_owes_nothing() {
    let mut boundary = Boundary::new();
    let mut hub = open_hub(&mut boundary);
    let submission =
        reldex_session_ping(&mut boundary, Some(&mut hub), 9, true, 8).expect("accepted");
    assert_eq!(hub.pending.len(), 1);
    let status = finish_submit(
        &mut boundary,
        &mut hub,
        submission.request,
        Err(error(ErrorKind::Resource, "queue full")),
    );
    assert_eq!(status, ReldexStatus::Error);
    assert_eq!(last_message(&mut boundary), "queue full");
    assert_eq!(hub.pending.len(), 0);
}

#[test]
fn a_request_on_an_unknown_or_unready_session_is_refused() {
    let mut boundary = Boundary::new();
    let mut hub = open_hub(&mut boundary);
    let missing = reldex_session_commit(&mut boundary, Some(&mut hub), 4, true, 1).err();
    assert_eq!(missing, Some(ReldexStatus::NotFound));
    assert!(last_message(&mut boundary).contains('4'));
    open(&mut boundary, &mut hub, 10, 1);
    let opening = reldex_session_rollback(&mut boundary, Some(&mut hub), 10, false, 1).err();
    assert_eq!(opening, Some(ReldexStatus::InvalidState));
    let nowhere = reldex_session_commit(&mut boundary, None, 9, true, 1).err();
    assert_eq!(nowhere, Some(ReldexStatus::InvalidArgument));
    boundary.enter_waker();
    let inside = reldex_session_commit(&mut boundary, Some(&mut hub), 9, true, 1).err();
    assert_eq!(inside, Some(ReldexStatus::Reentrant));
}

#[test]
fn transaction_requests_complete_as_what_they_were() {
    let mut boundary = Boundary::new();
    let mut hub = open_hub(&mut boundary);
    let commit = reldex_session_commit(&mut boundary, Some(&mut hub), 9, true, 1).expect("ok");
    assert!(matches!(commit.command, SessionCommand::Commit));
    let rollback = reldex_session_rollback(&mut boundary, Some(&mut hub), 9, true, 2).expect("ok");
    assert!(matches!(rollback.command, SessionCommand::Rollback));
    let savepoint = reldex_session_savepoint(
        &mut boundary,
        Some(&mut hub),
        9,
        true,
        3,
        text("before"),
        Ok(()),
    )
    .expect("ok");
    let SessionCommand::Savepoint { name } = &savepoint.command else {
        panic!("a savepoint");
    };
    assert_eq!(name, "before");
    let back = reldex_session_rollback_to_savepoint(
        &mut boundary,
        Some(&mut hub),
        9,
        true,
        4,
        text("before"),
        Ok(()),
    )
    .expect("ok");
    let replies = [
        (commit.request, CompletedOperation::Commit, 1),
        (rollback.request, CompletedOperation::Rollback, 2),
        (savepoint.request, CompletedOperation::Savepoint, 3),
        (back.request, CompletedOperation::RollbackToSavepoint, 4),
    ];
    let told = [
        ReldexCompletedOperation::Commit,
        ReldexCompletedOperation::Rollback,
        ReldexCompletedOperation::Savepoint,
        ReldexCompletedOperation::RollbackToSavepoint,
    ];
    for ((request, operation, caller), expected) in replies.into_iter().zip(told) {
        let event = SessionEvent::Completed {
            session: 9,
            request,
            operation,
            done: Ok(()),
        };
        let told = deliver(&mut boundary, &mut hub, event);
        assert_eq!(told.kind, ReldexEventKind::Completed as i32);
        assert_eq!(told.completed_operation, expected as i32);
        assert_eq!(told.request, caller);
    }
}

#[test]
fn a_savepoint_name_is_refused_with_its_reason() {
    let mut boundary = Boundary::new();
    let mut hub = open_hub(&mut boundary);
    let refused = reldex_session_savepoint(
        &mut boundary,
        Some(&mut hub),
        9,
        true,
        3,
        text("1st"),
        Err("a savepoint name starts with a letter".to_owned()),
    )
    .err();
    assert_eq!(refused, Some(ReldexStatus::InvalidArgument));
    assert!(last_message(&mut boundary).contains("starts with a letter"));
    let unreadable = reldex_session_savepoint(
        &mut boundary,
        Some(&mut hub),
        9,
        true,
        3,
        ReldexStr {
            ptr: Some(b"\xff"),
            len: 1,
        },
        Ok(()),
    )
    .err();
    assert_eq!(unreadable, Some(ReldexStatus::InvalidArgument));
    assert_eq!(hub.pending.len(), 0);
}

#[test]
fn server_output_is_set_and_crosses_in_lines() {
    let mut boundary = Boundary::new();
    let mut hub = open_hub(&mut boundary);
    let submission = reldex_session_set_server_output(
        &mut boundary,
        Some(&mut hub),
        9,
        true,
        7,
        ReldexServerOutputMode::EnabledBytes as i32,
        20_000,
    )
    .expect("ok");
    assert!(matches!(
        submission.command,
        SessionCommand::SetServerOutput {
            setting: ServerOutputSetting::EnabledBytes(20_000)
        }
    ));
    let configured = SessionEvent::ServerOutputConfigured {
        session: 9,
        request: submission.request,
        setting: Ok(ServerOutputSetting::EnabledBytes(20_000)),
    };
    let told = deliver(&mut boundary, &mut hub, configured);
    assert_eq!(
        told.server_output_mode,
        ReldexServerOutputMode::EnabledBytes as i32
    );
    assert_eq!(told.server_output_buffer_bytes, 20_000);

    let output = SessionEvent::ServerOutput {
        session: 9,
        lines: vec!["one".to_owned(), "two".to_owned()],
        dropped: 4,
        failure: None,
        invalid_utf8_lines: 1,
    };
    let told = deliver(&mut boundary, &mut hub, output);
    assert_eq!(told.server_output_dropped, 4);
    assert_eq!(told.server_output_invalid_utf8_lines, 1);
    let lines = told.server_output_lines.expect("lines");
    assert_eq!(
        reldex_server_output_lines_count(&mut boundary, Some(&lines)),
        2
    );
    let second = reldex_server_output_lines_get(&mut boundary, Some(&lines), 1);
    assert_eq!(second.as_str(), Some("two"));

    let bad = reldex_session_set_server_output(&mut boundary, Some(&mut hub), 9, true, 7, 12, 0);
    assert_eq!(bad.err(), Some(ReldexStatus::InvalidArgument));
}

#[test]
fn a_close_that_needs_a_decision_leaves_the_session_open() {
    let mut boundary = Boundary::new();
    let mut hub = open_hub(&mut boundary);
    let submission = reldex_session_close(
        &mut boundary,
        Some(&mut hub),
        9,
        true,
        40,
        ReldexCloseDisposition::Undecided as i32,
    )
    .expect("ok");
    assert!(matches!(
        submission.command,
        SessionCommand::Close { disposition: None }
    ));
    let status = finish_close(&mut boundary, &mut hub, 9, submission.request, Ok(()));
    assert_eq!(status, ReldexStatus::Okay);
    let undecided = SessionEvent::SessionClosed {
        session: 9,
        request: submission.request,
        closed: Err(CloseError::DecisionRequired {
            explanation: "commit or roll back?".to_owned(),
        }),
    };
    let told = deliver(&mut boundary, &mut hub, undecided);
    assert_eq!(
        told.close_outcome,
        ReldexCloseOutcome::DecisionRequired as i32
    );
    assert!(told.session_still_open);
    assert_eq!(told.session_state, ReldexSessionState::Usable as i32);
    let explained = told.error.expect("an explanation");
    assert_eq!(explained.kind(), ReldexErrorKind::Transaction);
    assert_eq!(explained.message(), "commit or roll back?");
    assert!(reldex_session_ping(&mut boundary, Some(&mut hub), 9, true, 1).is_ok());

    let submission = reldex_session_close(
        &mut boundary,
        Some(&mut hub),
        9,
        true,
        41,
        ReldexCloseDisposition::Commit as i32,
    )
    .expect("ok");
    assert!(matches!(
        submission.command,
        SessionCommand::Close {
            disposition: Some(CloseDisposition::Commit)
        }
    ));
    finish_close(&mut boundary, &mut hub, 9, submission.request, Ok(()));
    let closed = SessionEvent::SessionClosed {
        session: 9,
        request: submission.request,
        closed: Ok(()),
    };
    let told = deliver(&mut boundary, &mut hub, closed);
    assert_eq!(told.close_outcome, ReldexCloseOutcome::Closed as i32);
    assert!(!told.session_still_open);
    assert_eq!(told.session_state, ReldexSessionState::Closed as i32);
    let after = reldex_session_ping(&mut boundary, Some(&mut hub), 9, true, 1).err();
    assert_eq!(after, Some(ReldexStatus::InvalidState));
    let unknown = reldex_session_close(&mut boundary, Some(&mut hub), 9, true, 42, 17).err();
    assert_eq!(unknown, Some(ReldexStatus::InvalidArgument));
}

#[test]
fn each_failed_close_has_its_outcome() {
    let outcomes = [
        (
            CloseError::CommitFailed(error(ErrorKind::Transaction, "c")),
            ReldexCloseOutcome::CommitFailed,
            "c",
        ),
        (
            CloseError::RollbackFailed(error(ErrorKind::Transaction, "r")),
            ReldexCloseOutcome::RollbackFailed,
            "r",
        ),
        (
            CloseError::Failed(error(ErrorKind::NetworkLost, "f")),
            ReldexCloseOutcome::Failed,
            "f",
        ),
    ];
    for (failure, outcome, message) in outcomes {
        let mut boundary = Boundary::new();
        let mut hub = open_hub(&mut boundary);
        let submission =
            reldex_session_close(&mut boundary, Some(&mut hub), 9, true, 1, 3).expect("ok");
        let event = SessionEvent::SessionClosed {
            session: 9,
            request: submission.request,
            closed: Err(failure),
        };
        let told = deliver(&mut boundary, &mut hub, event);
        assert_eq!(told.close_outcome, outcome as i32);
        assert_eq!(told.error.expect("an error").message(), message);
    }
}

#[test]
fn the_end_of_a_session_removes_it_from_the_hub() {
    let mut boundary = Boundary::new();
    let mut hub = open_hub(&mut boundary);
    run_query(&mut boundary, &mut hub, 300);
    let mut listed = vec![0; 3];
    let total = reldex_hub_list_sessions(&mut boundary, Some(&hub), Some(&mut listed));
    assert_eq!((total, listed), (1, vec![9, 0, 0]));
    let end = SessionEvent::Terminal {
        session: 9,
        lifecycle: SessionLifecycle::Lost,
        cause: Some(error(ErrorKind::NetworkLost, "gone")),
        transaction_possibly_lost: true,
    };
    let facts = SessionFacts {
        ready: false,
        lifecycle: SessionLifecycle::Lost,
        dropped_lines: 6,
    };
    let told = deliver_with(&mut boundary, &mut hub, end, facts);
    assert_eq!(told.kind, ReldexEventKind::Terminal as i32);
    assert_eq!(told.session_state, ReldexSessionState::Lost as i32);
    assert!(told.transaction_possibly_lost && !told.abandoned);
    assert_eq!(told.server_output_dropped, 6);
    assert_eq!(reldex_hub_session_count(&mut boundary, Some(&hub)), 0);
    assert_eq!(boundary.live.sessions, 0);
    assert_eq!(
        hub.orphaned_columns.len(),
        1,
        "a result the caller did not close stays described"
    );
}

#[test]
fn an_abandoned_session_takes_nothing_and_ends_as_abandoned() {
    let mut boundary = Boundary::new();
    let mut hub = open_hub(&mut boundary);
    assert_eq!(
        reldex_session_abandon(&mut boundary, Some(&mut hub), 9, true),
        ReldexStatus::Okay
    );
    let found = Abandoned::Open {
        transaction_possibly_lost: true,
    };
    let outcome = finish_abandon(&mut hub, 9, found);
    assert_eq!(outcome, (ReldexAbandonOutcome::Open, true));
    let refused = reldex_session_ping(&mut boundary, Some(&mut hub), 9, true, 1).err();
    assert_eq!(refused, Some(ReldexStatus::InvalidState));
    let again = finish_abandon(&mut hub, 9, Abandoned::Other);
    assert_eq!(again, (ReldexAbandonOutcome::AlreadyEnded, false));
    let connecting = finish_abandon(&mut hub, 9, Abandoned::Connecting);
    assert_eq!(connecting, (ReldexAbandonOutcome::Connecting, false));
    let end = SessionEvent::Terminal {
        session: 9,
        lifecycle: SessionLifecycle::Closed,
        cause: None,
        transaction_possibly_lost: true,
    };
    let told = deliver(&mut boundary, &mut hub, end);
    assert!(told.abandoned);
    let gone = reldex_session_abandon(&mut boundary, Some(&mut hub), 9, true);
    assert_eq!(gone, ReldexStatus::NotFound);
    let unaligned = reldex_session_abandon(&mut boundary, Some(&mut hub), 9, false);
    assert_eq!(unaligned, ReldexStatus::InvalidArgument);
}

#[test]
fn a_cancel_reports_what_the_session_said() {
    let mut boundary = Boundary::new();
    let mut hub = open_hub(&mut boundary);
    let status = reldex_session_request_cancel(&mut boundary, Some(&mut hub), 9, true, true);
    assert_eq!(status, ReldexStatus::Okay);
    let answers = [
        (CancelOutcome::Requested, ReldexCancelOutcome::Requested),
        (
            CancelOutcome::NotInterruptible,
            ReldexCancelOutcome::NotInterruptible,
        ),
        (CancelOutcome::Unrecognized, ReldexCancelOutcome::Unknown),
    ];
    for (said, told) in answers {
        assert_eq!(finish_cancel(&mut boundary, Ok(said)), Ok(told));
    }
    let failed = finish_cancel(&mut boundary, Err(error(ErrorKind::Other, "broken")));
    assert_eq!(failed, Err(ReldexStatus::Error));
    assert_eq!(last_message(&mut boundary), "broken");
    open(&mut boundary, &mut hub, 3, 1);
    let early = reldex_session_request_cancel(&mut boundary, Some(&mut hub), 3, false, true);
    assert_eq!(early, ReldexStatus::InvalidState);
    assert!(last_message(&mut boundary).contains("nothing to cancel"));
}

#[test]
fn connect_warnings_are_put_behind_what_an_arena_holds() {
    let mut boundary = Boundary::new();
    let mut hub = open_hub(&mut boundary);
    let mut arena = reldex_text_arena_create(&mut boundary).expect("an arena");
    let warnings = vec![
        "password expires".to_owned(),
        "old client".to_owned(),
    ];
    for expected in [2, 4] {
        let status = reldex_session_connect_warnings(
            &mut boundary,
            Some(&mut hub),
            9,
            true,
            Some(&mut arena),
            &warnings,
        );
        assert_eq!(status, ReldexStatus::Okay);
        let count = reldex_text_arena_count(&mut boundary, Some(&arena));
        assert_eq!(count, expected);
    }
    let nowhere =
        reldex_session_connect_warnings(&mut boundary, Some(&mut hub), 9, true, None, &warnings);
    assert_eq!(nowhere, ReldexStatus::InvalidArgument);
}

#[test]
fn an_older_caller_is_passed_by_newer_kinds() {
    let mut boundary = Boundary::new();
    let mut hub = open_hub(&mut boundary);
    let submission =
        reldex_session_execute(&mut boundary, Some(&mut hub), 9, true, 70, text("x"), 0)
            .expect("ok");
    let events = || {
        VecDeque::from([
            TakenEvent {
                event: SessionEvent::Executing {
                    session: 9,
                    request: submission.request,
                    deadline: None,
                },
                facts: usable(),
            },
            TakenEvent {
                event: SessionEvent::TransactionStateChanged {
                    session: 9,
                    possibly_active: true,
                },
                facts: usable(),
            },
            TakenEvent {
                event: SessionEvent::Executed {
                    session: 9,
                    request: submission.request,
                    outcome: Ok(query(1)),
                },
                facts: usable(),
            },
        ])
    };
    let mut queue = events();
    let older = FULL - 24;
    let told = reldex_hub_next_event(&mut boundary, Some(&mut hub), &mut queue, Some(older), FULL)
        .expect("the reply");
    assert_eq!(told.kind, ReldexEventKind::Executed as i32);
    assert_eq!((told.request, told.struct_size), (70, older));
    let none = reldex_hub_next_event(&mut boundary, Some(&mut hub), &mut queue, Some(older), FULL);
    assert!(none.is_none());

    let mut queue = events();
    let told = reldex_hub_next_event(&mut boundary, Some(&mut hub), &mut queue, Some(FULL), FULL)
        .expect("the front");
    assert_eq!(told.kind, ReldexEventKind::Executing as i32);
    let told = reldex_hub_next_event(&mut boundary, Some(&mut hub), &mut queue, Some(FULL), FULL)
        .expect("the next");
    assert_eq!(told.kind, ReldexEventKind::TransactionState as i32);
    assert!(told.transaction_possibly_active);
    let refused = reldex_hub_next_event(&mut boundary, Some(&mut hub), &mut queue, None, FULL);
    assert!(refused.is_none());
    assert_eq!(queue.len(), 1, "a refused call takes nothing");
    assert_eq!(
        reldex_hub_pending_events(&mut boundary, Some(&hub), queue.len()),
        1
    );
}

#[test]
fn a_hub_is_not_destroyed_from_inside_a_waker() {
    let mut boundary = Boundary::new();
    let hub = open_hub(&mut boundary);
    boundary.enter_waker();
    let end = reldex_hub_destroy(&mut boundary, Some(hub));
    let HubEnd::Refused(hub) = end else {
        panic!("the hub is kept");
    };
    assert_eq!(boundary.live.hubs, 1);
    boundary.leave_waker();
    assert!(matches!(
        reldex_hub_destroy(&mut boundary, None),
        HubEnd::Nothing
    ));
    let set = reldex_hub_set_waker(&mut boundary, Some(&hub));
    assert_eq!(set, ReldexStatus::Okay);
    assert_eq!(
        reldex_hub_set_waker(&mut boundary, None),
        ReldexStatus::InvalidArgument
    );
    let HubEnd::Destroyed { abandoned } = reldex_hub_destroy(&mut boundary, Some(hub)) else {
        panic!("the hub is destroyed");
    };
    assert_eq!(abandoned, [9]);
    assert_eq!((boundary.live.hubs, boundary.live.sessions), (0, 0));
}

#[test]
fn what_undrained_events_carry_is_live() {
    let mut boundary = Boundary::new();
    let lost = || error(ErrorKind::NetworkLost, "gone");
    let rows = SessionEvent::Fetched {
        session: 9,
        request: 1,
        batch: Ok(FetchedBatch {
            row_count: 0,
            columns: vec![],
        }),
    };
    let failed = SessionEvent::Executed {
        session: 9,
        request: 2,
        outcome: Err(lost()),
    };
    let ended = SessionEvent::Terminal {
        session: 9,
        lifecycle: SessionLifecycle::Lost,
        cause: Some(lost()),
        transaction_possibly_lost: false,
    };
    let lines = SessionEvent::ServerOutput {
        session: 9,
        lines: vec!["a line".to_owned()],
        dropped: 0,
        failure: None,
        invalid_utf8_lines: 0,
    };
    let progress = SessionEvent::Executing {
        session: 9,
        request: 2,
        deadline: None,
    };
    let waiting = [&rows, &failed, &progress, &lines, &ended];
    let counts = reldex_live_counts(&mut boundary, &waiting, Some(56)).expect("the counts");
    assert_eq!((counts.batches, counts.errors), (1, 2));
    assert_eq!(counts.misc_objects, 0, "lines become an object once drained");
    assert_eq!((boundary.live.batches, boundary.live.errors), (0, 0));
}

#[test]
fn the_mock_world_is_what_the_configuration_asks_for() {
    let mut boundary = Boundary::new();
    let mut options = ReldexOpenOptions::default();
    options.mock = ReldexMockScenarioConfig {
        rows: 12,
        seed: 5,
        per_fetch_latency_us: 30,
        block_duration_ms: 0,
        connect_failure: ReldexMockFailure::Unreachable as i32,
        block_connect: true,
        ..ReldexMockScenarioConfig::default()
    };
    let world = build_driver(&options).expect("the mock driver is there");
    assert_eq!((world.generated.rows, world.generated.seed), (12, 5));
    assert_eq!(world.generated.per_fetch_latency_us, Some(30));
    assert_eq!(world.generated.first_batch_latency_us, None);
    assert_eq!(world.empty.rows, 0);
    assert_eq!(world.release_after_ms, None);
    assert!(world.block_connect);
    let failure = world.connect_failure.expect("a failure");
    assert_eq!(failure.kind, ErrorKind::Connection);
    assert_eq!(failure.native_code, 12541);
    assert!(world.ping_failure.is_none());
    let able = world.capabilities;
    assert_eq!(able.cancel, CancelKind::Native);
    assert!(able.savepoints && able.exact_transaction_state);
    assert!(able.lob_streaming && able.error_position);
    assert_eq!(world.output_kind, StatementKind::PlSqlBlock);
    assert_eq!(world.output_rows, None);
    assert!(!world.output_opens_transaction);
    let statements = [
        (ReldexMockStatement::GeneratedQuery, world.generated_sql),
        (ReldexMockStatement::Block, world.block_sql),
        (ReldexMockStatement::Failing, world.failing_sql),
        (ReldexMockStatement::Panicking, world.panicking_sql),
        (ReldexMockStatement::Dml, world.dml_sql),
        (ReldexMockStatement::PumpPanic, world.pump_panic_sql),
        (ReldexMockStatement::EmptyQuery, world.empty_sql),
        (ReldexMockStatement::ServerOutput, world.output_sql),
        (ReldexMockStatement::LoseSession, world.lose_sql),
    ];
    for (statement, sql) in statements {
        let text = reldex_mock_statement(&mut boundary, statement as i32);
        assert_eq!(text.as_str(), Some(sql));
    }
    let unknown = reldex_mock_statement(&mut boundary, 10);
    assert_eq!(unknown.as_str(), Some(""));

    options.mock.scenario = 3;
    assert_eq!(
        build_driver(&options).err(),
        Some(ReldexStatus::InvalidArgument)
    );
}

#[test]
fn a_blocked_statement_is_released_where_there_is_one() {
    let mut boundary = Boundary::new();
    let mut hub = open_hub(&mut boundary);
    assert_eq!(
        reldex_mock_release_block(&mut boundary, Some(&hub), 9),
        ReldexStatus::Okay
    );
    assert_eq!(
        reldex_mock_release_block(&mut boundary, Some(&hub), 8),
        ReldexStatus::NotFound
    );
    let mut entry = hub.sessions.remove(9).expect("the session");
    entry.block = false;
    entry.connect_block = false;
    hub.sessions.insert(9, entry);
    assert_eq!(
        reldex_mock_release_block(&mut boundary, Some(&hub), 9),
        ReldexStatus::InvalidState
    );
    assert!(last_message(&mut boundary).contains("release"));
}
