//! What every call goes through: statuses, the last error, counters, borrowed
//! strings and sized structs.

use reldex_ffi::counters::{reldex_live_counts, Kind, LiveCounters, ReldexLiveCounts};
use reldex_ffi::error::{
    reldex_error_free, reldex_error_view, reldex_last_error_clear, reldex_last_error_take, DbError,
    ErrorKind, NativeError, ReldexError, ReldexErrorKind, ReldexSessionState, SessionState,
    SqlPosition,
};
use reldex_ffi::status::{Boundary, PanicPayload, ReldexStatus};
use reldex_ffi::strings::{
    check_out_struct, read_in_struct, reldex_utf16_offset, write_out_struct, OwnedStr, ReldexStr,
    StructImage, RELDEX_UTF16_OFFSET_INVALID,
};
use reldex_ffi::{reldex_abi_version, RELDEX_ABI_VERSION_MAJOR, RELDEX_ABI_VERSION_MINOR};

fn read(boundary: &mut Boundary) -> ReldexLiveCounts {
    reldex_live_counts(boundary, &[], Some(56)).expect("the counts are read")
}

fn ora_942() -> DbError {
    let mut error = DbError::new(ErrorKind::Syntax, "table or view does not exist".to_owned());
    error.native = Some(NativeError {
        code: 942,
        message: "ORA-00942: table or view does not exist".to_owned(),
    });
    error.position = Some(SqlPosition {
        char_offset: None,
        line: Some(2),
        column: Some(7),
    });
    error
}

#[test]
fn a_created_object_is_counted_until_it_is_destroyed() {
    let mut boundary = Boundary::new();
    let before = read(&mut boundary).arenas;
    boundary.live.created(Kind::Arena);
    assert_eq!(read(&mut boundary).arenas, before + 1);
    boundary.live.destroyed(Kind::Arena);
    assert_eq!(read(&mut boundary).arenas, before);
}

#[test]
fn a_null_out_struct_is_refused_rather_than_dereferenced() {
    let mut boundary = Boundary::new();
    let status = reldex_live_counts(&mut boundary, &[], None);
    assert_eq!(status, Err(ReldexStatus::InvalidArgument));
    let error = boundary.take_last_error().expect("a refused call records why");
    assert_eq!(
        error.message(),
        "reldex-ffi: reldex_live_counts: `out` is null, unaligned, or too small"
    );
}

#[test]
fn counts_are_kept_apart_but_for_the_small_objects() {
    let mut live = LiveCounters::new();
    live.created(Kind::ServerOutputLines);
    live.created(Kind::WorkspaceObject);
    live.created(Kind::Hub);
    assert_eq!(live.counter(Kind::ServerOutputLines), 2);
    assert_eq!(live.counter(Kind::WorkspaceObject), 2);
    assert_eq!(live.counter(Kind::Hub), 1);
    assert_eq!(live.counter(Kind::Session), 0);
    live.destroyed(Kind::WorkspaceObject);
    assert_eq!(live.misc_objects, 1);
    live.destroyed(Kind::Session);
    assert_eq!(live.sessions, usize::MAX, "counting wraps around");
}

#[test]
fn an_error_crosses_with_its_native_code_and_position() {
    let mut boundary = Boundary::new();
    let error = ReldexError::from_db_error(&mut boundary.live, &ora_942());
    let view = reldex_error_view(&mut boundary, Some(&error), Some(88)).expect("a view");
    assert_eq!(view.struct_size, 88);
    assert_eq!(view.kind, ReldexErrorKind::Syntax as i32);
    assert_eq!(view.session_state, ReldexSessionState::Usable as i32);
    assert!(view.has_native);
    assert_eq!(view.native_code, 942);
    assert!(view.has_line_column);
    assert_eq!((view.line, view.column), (2, 7));
    assert!(!view.has_char_offset);
    let message = view.message.as_str().expect("utf-8");
    assert!(message.contains("does not exist"), "{message}");
    assert_eq!(
        view.native_message.as_str(),
        Some("ORA-00942: table or view does not exist")
    );
    assert_eq!(view.cause.as_str(), Some(""));
    assert_eq!(boundary.live.errors, 1);
    assert!(reldex_error_free(&mut boundary, Some(error)).is_none());
    assert_eq!(boundary.live.errors, 0);
}

#[test]
fn the_failures_behind_an_error_are_joined() {
    let mut boundary = Boundary::new();
    let mut error = DbError::new(ErrorKind::Connection, "no route".to_owned());
    error.sources = vec!["socket".to_owned(), String::new(), "refused".to_owned()];
    error.session_state = SessionState::Lost;
    error.retryable = true;
    let error = ReldexError::from_db_error(&mut boundary.live, &error);
    let view = reldex_error_view(&mut boundary, Some(&error), Some(88)).expect("a view");
    assert_eq!(view.cause.as_str(), Some("socket: : refused"));
    assert_eq!(view.session_state, ReldexSessionState::Lost as i32);
    assert!(view.retryable);
    assert!(!view.has_native);
    assert_eq!(view.native_message.as_str(), Some(""));
}

#[test]
fn the_last_error_is_taken_once() {
    let mut boundary = Boundary::new();
    reldex_last_error_clear(&mut boundary);
    boundary.set_last_error(ora_942());
    let first = reldex_last_error_take(&mut boundary);
    assert!(first.is_some());
    assert!(
        reldex_last_error_take(&mut boundary).is_none(),
        "an error exists once"
    );
    assert!(reldex_error_free(&mut boundary, first).is_none());
    assert!(reldex_error_free(&mut boundary, None).is_none());
    assert_eq!(boundary.live.errors, 0);
}

#[test]
fn only_the_most_recent_error_is_kept() {
    let mut boundary = Boundary::new();
    boundary.set_last_error(ora_942());
    boundary.set_last_argument_error("second");
    assert_eq!(boundary.live.errors, 1, "the first one is gone");
    let kept = boundary.take_last_error().expect("the second one");
    assert_eq!(kept.message(), "reldex-ffi: second");
    assert_eq!(kept.kind(), ReldexErrorKind::DriverInternal);
}

#[test]
fn a_view_of_a_null_error_is_refused_rather_than_dereferenced() {
    let mut boundary = Boundary::new();
    let status = reldex_error_view(&mut boundary, None, Some(88)).err();
    assert_eq!(status, Some(ReldexStatus::InvalidArgument));
    reldex_last_error_clear(&mut boundary);
    assert!(boundary.last_error.is_none());
}

#[test]
fn an_error_without_a_place_for_its_view_is_refused() {
    let mut boundary = Boundary::new();
    let error = ReldexError::from_db_error(&mut boundary.live, &ora_942());
    let status = reldex_error_view(&mut boundary, Some(&error), None).err();
    assert_eq!(status, Some(ReldexStatus::InvalidArgument));
    assert!(boundary.last_error.is_some());
}

#[test]
fn every_error_kind_has_its_own_number() {
    let kinds = [
        ErrorKind::Configuration,
        ErrorKind::Connection,
        ErrorKind::Authentication,
        ErrorKind::NetworkLost,
        ErrorKind::Timeout,
        ErrorKind::Cancelled,
        ErrorKind::Syntax,
        ErrorKind::Constraint,
        ErrorKind::Permission,
        ErrorKind::Transaction,
        ErrorKind::Resource,
        ErrorKind::DataConversion,
        ErrorKind::Unsupported,
        ErrorKind::DriverInternal,
        ErrorKind::Other,
    ];
    for (index, kind) in kinds.into_iter().enumerate() {
        let stable = ReldexErrorKind::from_error_kind(kind);
        assert_eq!(stable as i32, index as i32 + 1);
        let read = ReldexErrorKind::from_i32(stable as i32).expect("a known number");
        assert_eq!(read.to_error_kind(), Some(kind));
    }
    assert_eq!(
        ReldexErrorKind::from_error_kind(ErrorKind::Unrecognized),
        ReldexErrorKind::Unknown
    );
    assert!(ReldexErrorKind::from_i32(0).is_none());
    assert!(ReldexErrorKind::from_i32(16).is_none());
}

#[test]
fn the_abi_version_packs_major_and_minor() {
    let mut boundary = Boundary::new();
    let version = reldex_abi_version(&mut boundary);
    assert_eq!(version >> 16, RELDEX_ABI_VERSION_MAJOR);
    assert_eq!(version & 0xFFFF, RELDEX_ABI_VERSION_MINOR);
}

#[test]
fn a_caught_panic_becomes_a_status() {
    let mut boundary = Boundary::new();
    let status = boundary.contain_panic(PanicPayload::Message("boom".to_owned()));
    assert_eq!(status, ReldexStatus::Panic);
    let error = boundary
        .take_last_error()
        .expect("a caught panic records a last error");
    assert!(error.message().contains("boom"), "{}", error.message());
    assert_eq!(
        boundary.contain_panic(PanicPayload::Other),
        ReldexStatus::Panic
    );
    let error = boundary.take_last_error().expect("as above");
    assert!(error.message().ends_with("a non-string panic payload"));
}

#[test]
fn an_entry_from_inside_a_waker_is_refused_rather_than_deadlocking() {
    let mut boundary = Boundary::new();
    boundary.enter_waker();
    assert_eq!(
        boundary.entry(|| ReldexStatus::Okay),
        ReldexStatus::Reentrant
    );
    assert_eq!(boundary.entry_value(7_u32, || 1_u32), 7);
    let error = boundary.take_last_error().expect("a refused call records why");
    assert!(error.message().contains("waker"), "{}", error.message());
}

#[test]
fn the_guard_clears_when_the_waker_returns() {
    let mut boundary = Boundary::new();
    boundary.enter_waker();
    boundary.leave_waker();
    assert_eq!(boundary.entry(|| ReldexStatus::Okay), ReldexStatus::Okay);
    assert_eq!(boundary.entry_value(7_u32, || 1_u32), 1);
    assert!(boundary.last_error.is_none());
}

#[test]
fn a_call_from_inside_a_waker_leaves_what_it_was_handed() {
    let mut boundary = Boundary::new();
    let error = ReldexError::from_db_error(&mut boundary.live, &ora_942());
    boundary.enter_waker();
    let kept = reldex_error_free(&mut boundary, Some(error));
    assert!(kept.is_some(), "the caller still owns it");
    assert_eq!(reldex_abi_version(&mut boundary), 0);
    boundary.leave_waker();
    assert!(reldex_error_free(&mut boundary, kept).is_none());
}

/// A struct of two numbers behind its size.
fn probe(struct_size: u32) -> StructImage {
    let mut rest = Vec::new();
    rest.extend_from_slice(&11_u32.to_le_bytes());
    rest.extend_from_slice(&22_u32.to_le_bytes());
    StructImage { struct_size, rest }
}

const PROBE_MIN: usize = 8;
const PROBE_SIZE: usize = 12;

fn field(image: &StructImage, index: usize) -> u32 {
    let start = index * 4;
    u32::from_le_bytes([
        image.rest[start],
        image.rest[start + 1],
        image.rest[start + 2],
        image.rest[start + 3],
    ])
}

#[test]
fn a_short_input_struct_reads_absent_fields_as_zero() {
    let value = probe(8);
    let read = read_in_struct(Some(&value), PROBE_MIN, PROBE_SIZE).expect("accepted");
    assert_eq!(field(&read, 0), 11);
    assert_eq!(
        field(&read, 1),
        0,
        "a field the caller did not supply is zero"
    );
}

#[test]
fn a_long_input_struct_is_accepted_and_the_extra_ignored() {
    let value = probe(64);
    let read = read_in_struct(Some(&value), PROBE_MIN, PROBE_SIZE).expect("accepted");
    assert_eq!((field(&read, 0), field(&read, 1)), (11, 22));
    assert_eq!(read.rest.len(), 8);
}

#[test]
fn an_input_struct_that_is_too_small_or_null_is_refused() {
    let value = probe(4);
    assert!(read_in_struct(Some(&value), PROBE_MIN, PROBE_SIZE).is_none());
    assert!(read_in_struct(None, PROBE_MIN, PROBE_SIZE).is_none());
}

#[test]
fn an_output_struct_is_filled_only_as_far_as_the_caller_owns_it() {
    let mut out = probe(8);
    out.rest = vec![0; 8];
    assert!(write_out_struct(Some(&mut out), &probe(12), PROBE_MIN));
    assert_eq!(out.struct_size, 8, "the caller is told what is valid");
    assert_eq!(field(&out, 0), 11);
    assert_eq!(field(&out, 1), 0, "past the caller's struct_size, untouched");

    let mut small = probe(4);
    assert!(!write_out_struct(Some(&mut small), &probe(12), PROBE_MIN));
    assert!(!write_out_struct(None, &probe(12), PROBE_MIN));
}

#[test]
fn a_place_for_an_answer_is_checked_before_anything_is_taken() {
    assert_eq!(check_out_struct(Some(8), PROBE_MIN, PROBE_SIZE), Some(8));
    assert_eq!(check_out_struct(Some(64), PROBE_MIN, PROBE_SIZE), Some(12));
    assert_eq!(check_out_struct(Some(7), PROBE_MIN, PROBE_SIZE), None);
    assert_eq!(check_out_struct(None, PROBE_MIN, PROBE_SIZE), None);
}

#[test]
fn utf16_offsets_follow_the_scalars_not_the_bytes() {
    let mut boundary = Boundary::new();
    let owned = OwnedStr::new("\u{e01}\u{1f680}b".to_owned());
    let text = owned.as_reldex_str();
    assert_eq!(reldex_utf16_offset(&mut boundary, text, 0), 0);
    assert_eq!(
        reldex_utf16_offset(&mut boundary, text, 1),
        1,
        "Thai is one UTF-16 unit"
    );
    assert_eq!(
        reldex_utf16_offset(&mut boundary, text, 2),
        3,
        "the emoji is a pair"
    );
    assert_eq!(reldex_utf16_offset(&mut boundary, text, 3), 4);
    assert_eq!(
        reldex_utf16_offset(&mut boundary, text, 99),
        4,
        "past the end clamps"
    );

    let invalid = ReldexStr {
        ptr: Some(b"\xff\xfe"),
        len: 2,
    };
    let offset = reldex_utf16_offset(&mut boundary, invalid, 0);
    assert_eq!(offset, RELDEX_UTF16_OFFSET_INVALID);
}

#[test]
fn a_null_pointer_has_no_utf16_offset() {
    let mut boundary = Boundary::new();
    for len in [0, 4] {
        let null = ReldexStr { ptr: None, len };
        let offset = reldex_utf16_offset(&mut boundary, null, 0);
        assert_eq!(offset, RELDEX_UTF16_OFFSET_INVALID);
    }
    let empty = reldex_utf16_offset(&mut boundary, ReldexStr::empty(), 3);
    assert_eq!(empty, 0, "text that is there but empty has an end");
    assert!(boundary.take_last_error().is_none());
}

#[test]
fn what_is_handed_out_is_nul_terminated() {
    let owned = OwnedStr::new("a\0b".to_owned());
    let text = owned.as_reldex_str();
    assert_eq!(text.len, 3, "the length is authoritative");
    assert_eq!(text.as_str(), Some("a\0b"));
    assert_eq!(text.ptr.map(|memory| memory[text.len]), Some(0));
    let empty = ReldexStr::empty();
    assert_eq!(empty.as_str(), Some(""));
    assert_eq!(empty.ptr.map(|memory| memory[0]), Some(0));
}

#[test]
fn a_null_string_is_text_only_when_it_is_empty() {
    let nothing = ReldexStr { ptr: None, len: 0 };
    assert_eq!(nothing.as_str(), Some(""));
    let dangling = ReldexStr { ptr: None, len: 3 };
    assert_eq!(dangling.as_str(), None);
    assert_eq!(dangling.as_bytes(), None);
    let bytes = ReldexStr {
        ptr: Some(b"\xc3\xa9x"),
        len: 2,
    };
    assert_eq!(bytes.as_str(), Some("\u{e9}"));
    assert_eq!(bytes.as_bytes(), Some(&b"\xc3\xa9"[..]));
}
