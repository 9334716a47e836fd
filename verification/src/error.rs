//! Failures: the plain description a failure arrives as, the owned
//! [`ReldexError`] it becomes, and the view a caller reads.

use vstd::prelude::*;

use crate::counters::{next_count, Kind, LiveCounters};
use crate::status::{Boundary, BoundaryModel, ReldexStatus};
use crate::strings::{OwnedStr, ReldexStr};

verus! {

/// The category of a failure, as the database core reports it.
#[derive(Debug, Clone, Copy, PartialEq, Eq, Structural)]
pub enum ErrorKind {
    Configuration,
    Connection,
    Authentication,
    NetworkLost,
    Timeout,
    Cancelled,
    Syntax,
    Constraint,
    Permission,
    Transaction,
    Resource,
    DataConversion,
    Unsupported,
    DriverInternal,
    Other,
    /// A category this library predates.
    Unrecognized,
}

/// Why an operation failed, as a vendor-neutral category.
///
/// `0` is reserved for a kind the caller's header predates.
#[derive(Debug, Clone, Copy, PartialEq, Eq, Structural)]
pub enum ReldexErrorKind {
    /// A kind this header does not know.
    Unknown,
    /// Connection parameters are invalid or incomplete; nothing was attempted.
    Configuration,
    /// A connection could not be established.
    Connection,
    /// The server rejected the credentials or the authentication method.
    Authentication,
    /// An established connection was lost mid-operation.
    NetworkLost,
    /// An operation exceeded a configured time limit.
    Timeout,
    /// The operation was cancelled.
    Cancelled,
    /// The statement could not be parsed or compiled.
    Syntax,
    /// A database constraint was violated.
    Constraint,
    /// The session lacks privileges for the object or operation.
    Permission,
    /// The operation failed because of transaction state.
    Transaction,
    /// A server-side or client-side resource limit was reached.
    Resource,
    /// A value could not be represented without loss, or was not valid for its
    /// declared type.
    DataConversion,
    /// The driver does not implement the requested capability.
    Unsupported,
    /// A bug of the library or the driver. An invalid argument is reported as
    /// this.
    DriverInternal,
    /// A database-reported error the driver could not classify.
    Other,
}

impl ReldexErrorKind {
    /// The stable category of a reported one.
    pub open spec fn of(kind: ErrorKind) -> Self {
        match kind {
            ErrorKind::Configuration => ReldexErrorKind::Configuration,
            ErrorKind::Connection => ReldexErrorKind::Connection,
            ErrorKind::Authentication => ReldexErrorKind::Authentication,
            ErrorKind::NetworkLost => ReldexErrorKind::NetworkLost,
            ErrorKind::Timeout => ReldexErrorKind::Timeout,
            ErrorKind::Cancelled => ReldexErrorKind::Cancelled,
            ErrorKind::Syntax => ReldexErrorKind::Syntax,
            ErrorKind::Constraint => ReldexErrorKind::Constraint,
            ErrorKind::Permission => ReldexErrorKind::Permission,
            ErrorKind::Transaction => ReldexErrorKind::Transaction,
            ErrorKind::Resource => ReldexErrorKind::Resource,
            ErrorKind::DataConversion => ReldexErrorKind::DataConversion,
            ErrorKind::Unsupported => ReldexErrorKind::Unsupported,
            ErrorKind::DriverInternal => ReldexErrorKind::DriverInternal,
            ErrorKind::Other => ReldexErrorKind::Other,
            ErrorKind::Unrecognized => ReldexErrorKind::Unknown,
        }
    }

    /// The reported category behind a stable one; nothing behind `Unknown`.
    pub open spec fn reported(self) -> Option<ErrorKind> {
        match self {
            ReldexErrorKind::Unknown => None,
            ReldexErrorKind::Configuration => Some(ErrorKind::Configuration),
            ReldexErrorKind::Connection => Some(ErrorKind::Connection),
            ReldexErrorKind::Authentication => Some(ErrorKind::Authentication),
            ReldexErrorKind::NetworkLost => Some(ErrorKind::NetworkLost),
            ReldexErrorKind::Timeout => Some(ErrorKind::Timeout),
            ReldexErrorKind::Cancelled => Some(ErrorKind::Cancelled),
            ReldexErrorKind::Syntax => Some(ErrorKind::Syntax),
            ReldexErrorKind::Constraint => Some(ErrorKind::Constraint),
            ReldexErrorKind::Permission => Some(ErrorKind::Permission),
            ReldexErrorKind::Transaction => Some(ErrorKind::Transaction),
            ReldexErrorKind::Resource => Some(ErrorKind::Resource),
            ReldexErrorKind::DataConversion => Some(ErrorKind::DataConversion),
            ReldexErrorKind::Unsupported => Some(ErrorKind::Unsupported),
            ReldexErrorKind::DriverInternal => Some(ErrorKind::DriverInternal),
            ReldexErrorKind::Other => Some(ErrorKind::Other),
        }
    }

    /// The stable category of a reported one.
    pub fn from_error_kind(kind: ErrorKind) -> (stable: Self)
        ensures
            stable == Self::of(kind),
    {
        match kind {
            ErrorKind::Configuration => ReldexErrorKind::Configuration,
            ErrorKind::Connection => ReldexErrorKind::Connection,
            ErrorKind::Authentication => ReldexErrorKind::Authentication,
            ErrorKind::NetworkLost => ReldexErrorKind::NetworkLost,
            ErrorKind::Timeout => ReldexErrorKind::Timeout,
            ErrorKind::Cancelled => ReldexErrorKind::Cancelled,
            ErrorKind::Syntax => ReldexErrorKind::Syntax,
            ErrorKind::Constraint => ReldexErrorKind::Constraint,
            ErrorKind::Permission => ReldexErrorKind::Permission,
            ErrorKind::Transaction => ReldexErrorKind::Transaction,
            ErrorKind::Resource => ReldexErrorKind::Resource,
            ErrorKind::DataConversion => ReldexErrorKind::DataConversion,
            ErrorKind::Unsupported => ReldexErrorKind::Unsupported,
            ErrorKind::DriverInternal => ReldexErrorKind::DriverInternal,
            ErrorKind::Other => ReldexErrorKind::Other,
            ErrorKind::Unrecognized => ReldexErrorKind::Unknown,
        }
    }

    /// The category with number `value`. `Unknown` is no input.
    pub fn from_i32(value: i32) -> (kind: Option<Self>)
        ensures
            kind is Some <==> 1 <= value <= 15,
            kind matches Some(kind) ==> kind as i32 == value,
    {
        match value {
            1 => Some(ReldexErrorKind::Configuration),
            2 => Some(ReldexErrorKind::Connection),
            3 => Some(ReldexErrorKind::Authentication),
            4 => Some(ReldexErrorKind::NetworkLost),
            5 => Some(ReldexErrorKind::Timeout),
            6 => Some(ReldexErrorKind::Cancelled),
            7 => Some(ReldexErrorKind::Syntax),
            8 => Some(ReldexErrorKind::Constraint),
            9 => Some(ReldexErrorKind::Permission),
            10 => Some(ReldexErrorKind::Transaction),
            11 => Some(ReldexErrorKind::Resource),
            12 => Some(ReldexErrorKind::DataConversion),
            13 => Some(ReldexErrorKind::Unsupported),
            14 => Some(ReldexErrorKind::DriverInternal),
            15 => Some(ReldexErrorKind::Other),
            _ => None,
        }
    }

    /// The reported category behind a stable one.
    pub fn to_error_kind(self) -> (kind: Option<ErrorKind>)
        ensures
            kind == self.reported(),
    {
        match self {
            ReldexErrorKind::Unknown => None,
            ReldexErrorKind::Configuration => Some(ErrorKind::Configuration),
            ReldexErrorKind::Connection => Some(ErrorKind::Connection),
            ReldexErrorKind::Authentication => Some(ErrorKind::Authentication),
            ReldexErrorKind::NetworkLost => Some(ErrorKind::NetworkLost),
            ReldexErrorKind::Timeout => Some(ErrorKind::Timeout),
            ReldexErrorKind::Cancelled => Some(ErrorKind::Cancelled),
            ReldexErrorKind::Syntax => Some(ErrorKind::Syntax),
            ReldexErrorKind::Constraint => Some(ErrorKind::Constraint),
            ReldexErrorKind::Permission => Some(ErrorKind::Permission),
            ReldexErrorKind::Transaction => Some(ErrorKind::Transaction),
            ReldexErrorKind::Resource => Some(ErrorKind::Resource),
            ReldexErrorKind::DataConversion => Some(ErrorKind::DataConversion),
            ReldexErrorKind::Unsupported => Some(ErrorKind::Unsupported),
            ReldexErrorKind::DriverInternal => Some(ErrorKind::DriverInternal),
            ReldexErrorKind::Other => Some(ErrorKind::Other),
        }
    }
}

/// Every category but the unknown one survives the crossing in both
/// directions.
pub proof fn error_kind_round_trip(kind: ErrorKind)
    ensures
        kind != ErrorKind::Unrecognized ==> ReldexErrorKind::of(kind).reported() == Some(kind),
        kind == ErrorKind::Unrecognized ==> ReldexErrorKind::of(kind).reported() is None,
{
}

/// What the driver believes about a session after a failure.
#[derive(Debug, Clone, Copy, PartialEq, Eq, Structural)]
pub enum SessionState {
    Usable,
    NeedsValidation,
    Lost,
}

/// Where a session is in its life.
#[derive(Debug, Clone, Copy, PartialEq, Eq, Structural)]
pub enum SessionLifecycle {
    Usable,
    NeedsValidation,
    Lost,
    Closed,
}

/// What the driver believes about the session after a failure, plus the
/// terminal states.
///
/// `0` is reserved for a state the caller's header predates.
#[derive(Debug, Clone, Copy, PartialEq, Eq, Structural)]
pub enum ReldexSessionState {
    /// A state this header does not know.
    Unknown,
    /// The session is known to be usable; the failure was confined to the call.
    Usable,
    /// The session may be usable; it will be validated before the next request.
    NeedsValidation,
    /// The session is gone. Any transaction it held is lost.
    Lost,
    /// The session was closed by the caller.
    Closed,
}

impl ReldexSessionState {
    /// The stable state a failure reports.
    pub open spec fn of_state(state: SessionState) -> Self {
        match state {
            SessionState::Usable => ReldexSessionState::Usable,
            SessionState::NeedsValidation => ReldexSessionState::NeedsValidation,
            SessionState::Lost => ReldexSessionState::Lost,
        }
    }

    /// The stable state of a session.
    pub open spec fn of_lifecycle(state: SessionLifecycle) -> Self {
        match state {
            SessionLifecycle::Usable => ReldexSessionState::Usable,
            SessionLifecycle::NeedsValidation => ReldexSessionState::NeedsValidation,
            SessionLifecycle::Lost => ReldexSessionState::Lost,
            SessionLifecycle::Closed => ReldexSessionState::Closed,
        }
    }

    /// The stable state a failure reports.
    pub fn from_state(state: SessionState) -> (stable: Self)
        ensures
            stable == Self::of_state(state),
    {
        match state {
            SessionState::Usable => ReldexSessionState::Usable,
            SessionState::NeedsValidation => ReldexSessionState::NeedsValidation,
            SessionState::Lost => ReldexSessionState::Lost,
        }
    }

    /// The stable state of a session.
    pub fn from_lifecycle(state: SessionLifecycle) -> (stable: Self)
        ensures
            stable == Self::of_lifecycle(state),
    {
        match state {
            SessionLifecycle::Usable => ReldexSessionState::Usable,
            SessionLifecycle::NeedsValidation => ReldexSessionState::NeedsValidation,
            SessionLifecycle::Lost => ReldexSessionState::Lost,
            SessionLifecycle::Closed => ReldexSessionState::Closed,
        }
    }
}

/// The vendor's own error.
#[derive(Debug)]
pub struct NativeError {
    pub code: i32,
    pub message: String,
}

/// Where in the statement text a failure points: a scalar offset, a line and a
/// column, each when the server gave it.
#[derive(Debug, Clone, Copy, PartialEq, Eq, Structural)]
pub struct SqlPosition {
    pub char_offset: Option<u32>,
    pub line: Option<u32>,
    pub column: Option<u32>,
}

/// A failure as it arrives from the database core.
#[derive(Debug)]
pub struct DbError {
    pub kind: ErrorKind,
    pub message: String,
    pub session_state: SessionState,
    pub retryable: bool,
    pub native: Option<NativeError>,
    pub position: Option<SqlPosition>,
    /// The failures behind this one, nearest first, each rendered.
    pub sources: Vec<String>,
}

/// What a failure says, once it has crossed.
#[verifier::ext_equal]
pub struct ErrorModel {
    pub kind: ReldexErrorKind,
    pub session_state: ReldexSessionState,
    pub retryable: bool,
    pub native_code: Option<i32>,
    pub native_message: Option<Seq<char>>,
    pub position: Option<SqlPosition>,
    pub message: Seq<char>,
    pub cause: Option<Seq<char>>,
}

/// The rendered failures joined by `: `. A separator stands only behind text.
pub open spec fn joined_causes(sources: Seq<String>) -> Seq<char>
    decreases sources.len(),
{
    if sources.len() == 0 {
        Seq::empty()
    } else {
        let before = joined_causes(sources.drop_last());
        if before.len() == 0 {
            sources.last()@
        } else {
            before + ": "@ + sources.last()@
        }
    }
}

impl View for DbError {
    type V = ErrorModel;

    /// What a caller is told of the failure.
    open spec fn view(&self) -> ErrorModel {
        let cause = joined_causes(self.sources@);
        ErrorModel {
            kind: ReldexErrorKind::of(self.kind),
            session_state: ReldexSessionState::of_state(self.session_state),
            retryable: self.retryable,
            native_code: match self.native {
                Some(native) => Some(native.code),
                None => None,
            },
            native_message: match self.native {
                Some(native) => Some(native.message@),
                None => None,
            },
            position: self.position,
            message: self.message@,
            cause: if cause.len() == 0 {
                None
            } else {
                Some(cause)
            },
        }
    }
}

impl ErrorModel {
    /// A failure with nothing but a category and a message.
    pub open spec fn plain(kind: ReldexErrorKind, message: Seq<char>) -> Self {
        ErrorModel {
            kind,
            session_state: ReldexSessionState::Usable,
            retryable: false,
            native_code: None,
            native_message: None,
            position: None,
            message,
            cause: None,
        }
    }

    /// A failure of the library itself.
    pub open spec fn internal(message: Seq<char>) -> Self {
        ErrorModel::plain(ReldexErrorKind::DriverInternal, message)
    }

    /// A refused argument.
    pub open spec fn argument(message: Seq<char>) -> Self {
        ErrorModel::internal("reldex-ffi: "@ + message)
    }
}

impl DbError {
    /// A failure with nothing but a category and a message: confined to the
    /// call, and not worth retrying.
    pub fn new(kind: ErrorKind, message: String) -> (error: Self)
        ensures
            error@ == ErrorModel::plain(ReldexErrorKind::of(kind), message@),
    {
        DbError {
            kind,
            message,
            session_state: SessionState::Usable,
            retryable: false,
            native: None,
            position: None,
            sources: Vec::new(),
        }
    }

    /// A failure of the library itself.
    pub fn internal(message: String) -> (error: Self)
        ensures
            error@ == ErrorModel::internal(message@),
    {
        DbError::new(ErrorKind::DriverInternal, message)
    }
}

/// One failure, owned by the caller from the moment it is handed out.
#[derive(Debug)]
pub struct ReldexError {
    kind: ReldexErrorKind,
    session_state: ReldexSessionState,
    retryable: bool,
    native_code: Option<i32>,
    native_message: Option<OwnedStr>,
    position: Option<SqlPosition>,
    message: OwnedStr,
    cause: Option<OwnedStr>,
}

impl View for ReldexError {
    type V = ErrorModel;

    closed spec fn view(&self) -> ErrorModel {
        ErrorModel {
            kind: self.kind,
            session_state: self.session_state,
            retryable: self.retryable,
            native_code: self.native_code,
            native_message: match self.native_message {
                Some(message) => Some(message@),
                None => None,
            },
            position: self.position,
            message: self.message@,
            cause: match self.cause {
                Some(cause) => Some(cause@),
                None => None,
            },
        }
    }
}

impl ReldexError {
    /// Takes a failure across, counting the object that carries it.
    pub fn from_db_error(live: &mut LiveCounters, error: &DbError) -> (crossed: Self)
        ensures
            crossed@ == error@,
            *final(live) == old(live).plus(Kind::Error),
    {
        let mut cause = String::new();
        let mut index: usize = 0;
        while index < error.sources.len()
            invariant
                index <= error.sources@.len(),
                cause@ == joined_causes(error.sources@.take(index as int)),
            decreases error.sources@.len() - index,
        {
            if !cause.as_str().is_empty() {
                cause.append(": ");
            }
            cause.append(error.sources[index].as_str());
            index += 1;
            assert(error.sources@.take(index as int).drop_last() =~= error.sources@.take(index - 1));
        }
        assert(error.sources@.take(index as int) =~= error.sources@);
        let empty = cause.as_str().is_empty();
        live.created(Kind::Error);
        ReldexError {
            kind: ReldexErrorKind::from_error_kind(error.kind),
            session_state: ReldexSessionState::from_state(error.session_state),
            retryable: error.retryable,
            native_code: match &error.native {
                Some(native) => Some(native.code),
                None => None,
            },
            native_message: match &error.native {
                Some(native) => Some(OwnedStr::new(native.message.clone())),
                None => None,
            },
            position: error.position,
            message: OwnedStr::new(error.message.clone()),
            cause: if empty {
                None
            } else {
                Some(OwnedStr::new(cause))
            },
        }
    }

    /// The message.
    #[must_use]
    pub fn message(&self) -> (message: &str)
        ensures
            message@ == self@.message,
    {
        match self.message.as_reldex_str().as_str() {
            Some(message) => message,
            None => "",
        }
    }

    /// The category.
    #[must_use]
    pub fn kind(&self) -> (kind: ReldexErrorKind)
        ensures
            kind == self@.kind,
    {
        self.kind
    }

    /// What this failure says about the session.
    pub fn session_state_for_event(&self) -> (state: ReldexSessionState)
        ensures
            state == self@.session_state,
    {
        self.session_state
    }

    /// Describes the failure into a view of which `valid` bytes are valid.
    fn describe(&self, valid: u32) -> (view: ReldexErrorView<'_>)
        ensures
            view.struct_size == valid,
            view.describes(self@),
    {
        ReldexErrorView {
            struct_size: valid,
            kind: self.kind as i32,
            session_state: self.session_state as i32,
            native_code: match self.native_code {
                Some(code) => code,
                None => 0,
            },
            char_offset: match self.position {
                Some(position) => position.char_offset.unwrap_or(0),
                None => 0,
            },
            line: match self.position {
                Some(position) => position.line.unwrap_or(0),
                None => 0,
            },
            column: match self.position {
                Some(position) => position.column.unwrap_or(0),
                None => 0,
            },
            retryable: self.retryable,
            has_native: self.native_code.is_some(),
            has_char_offset: match self.position {
                Some(position) => position.char_offset.is_some(),
                None => false,
            },
            has_line_column: match self.position {
                Some(position) => position.line.is_some(),
                None => false,
            },
            message: self.message.as_reldex_str(),
            native_message: match &self.native_message {
                Some(message) => message.as_reldex_str(),
                None => ReldexStr::empty(),
            },
            cause: match &self.cause {
                Some(cause) => cause.as_reldex_str(),
                None => ReldexStr::empty(),
            },
        }
    }
}

/// A read-only description of a [`ReldexError`], with every string borrowed
/// from it.
#[derive(Debug, Clone, Copy)]
pub struct ReldexErrorView<'a> {
    /// How many bytes of the view are valid.
    pub struct_size: u32,
    /// A [`ReldexErrorKind`].
    pub kind: i32,
    /// A [`ReldexSessionState`].
    pub session_state: i32,
    /// The vendor's numeric code, when `has_native`.
    pub native_code: i32,
    /// Position in the statement text, counted in Unicode scalars, when
    /// `has_char_offset`.
    pub char_offset: u32,
    /// 1-based line, when `has_line_column`.
    pub line: u32,
    /// 1-based column, when `has_line_column`.
    pub column: u32,
    /// Whether retrying the same operation could plausibly succeed.
    pub retryable: bool,
    /// Whether `native_code` and `native_message` carry a vendor error.
    pub has_native: bool,
    /// Whether `char_offset` is set.
    pub has_char_offset: bool,
    /// Whether `line` and `column` are set.
    pub has_line_column: bool,
    /// The library's own message.
    pub message: ReldexStr<'a>,
    /// The vendor's own message, unmodified; empty when `!has_native`.
    pub native_message: ReldexStr<'a>,
    /// The rendered failures behind this one, or empty.
    pub cause: ReldexStr<'a>,
}

/// The number behind an optional one, zero where there is none.
pub open spec fn or_zero(value: Option<u32>) -> u32 {
    match value {
        Some(value) => value,
        None => 0,
    }
}

/// The text behind an optional one, empty where there is none.
pub open spec fn or_empty(text: Option<Seq<char>>) -> Seq<char> {
    match text {
        Some(text) => text,
        None => Seq::empty(),
    }
}

impl ReldexErrorView<'_> {
    /// Whether the view says what `error` says.
    pub open spec fn describes(self, error: ErrorModel) -> bool {
        let nowhere = SqlPosition { char_offset: None, line: None, column: None };
        let position = match error.position {
            Some(position) => position,
            None => nowhere,
        };
        &&& self.kind == error.kind as i32
        &&& self.session_state == error.session_state as i32
        &&& self.retryable == error.retryable
        &&& self.has_native == error.native_code is Some
        &&& self.native_code == match error.native_code {
            Some(code) => code,
            None => 0,
        }
        &&& self.has_char_offset == position.char_offset is Some
        &&& self.has_line_column == position.line is Some
        &&& self.char_offset == or_zero(position.char_offset)
        &&& self.line == or_zero(position.line)
        &&& self.column == or_zero(position.column)
        &&& self.message.carries(error.message)
        &&& self.native_message.carries(or_empty(error.native_message))
        &&& self.cause.carries(or_empty(error.cause))
    }
}

/// Takes the last failure of this thread, handing it to the caller. A second
/// call finds nothing.
pub fn reldex_last_error_take(boundary: &mut Boundary) -> (taken: Option<ReldexError>)
    ensures
        old(boundary)@.in_waker ==> taken is None && final(boundary)@ == old(boundary)@.refused(),
        !old(boundary)@.in_waker ==> {
            &&& match taken {
                Some(error) => old(boundary)@.last_error == Some(error@),
                None => old(boundary)@.last_error is None,
            }
            &&& final(boundary)@ == (BoundaryModel { last_error: None, ..old(boundary)@ })
        },
{
    if boundary.refuse_reentrant() {
        return None;
    }
    boundary.take_last_error()
}

/// Discards the last failure of this thread, if any.
pub fn reldex_last_error_clear(boundary: &mut Boundary)
    ensures
        old(boundary)@.in_waker ==> final(boundary)@ == old(boundary)@.refused(),
        !old(boundary)@.in_waker ==> final(boundary)@ == (BoundaryModel {
            last_error: None,
            live: if old(boundary)@.last_error is Some {
                old(boundary)@.live.minus(Kind::Error)
            } else {
                old(boundary)@.live
            },
            ..old(boundary)@
        }),
{
    if boundary.refuse_reentrant() {
        return;
    }
    if boundary.take_last_error().is_some() {
        boundary.live.destroyed(Kind::Error);
    }
}

/// Describes `error`. `out` is how many bytes of the view the caller's struct
/// takes, or nothing where the struct was refused.
pub fn reldex_error_view<'a>(
    boundary: &mut Boundary,
    error: Option<&'a ReldexError>,
    out: Option<u32>,
) -> (view: Result<ReldexErrorView<'a>, ReldexStatus>)
    ensures
        old(boundary)@.in_waker ==> {
            &&& view == Err::<ReldexErrorView<'a>, _>(ReldexStatus::Reentrant)
            &&& final(boundary)@ == old(boundary)@.refused()
        },
        !old(boundary)@.in_waker && error is None ==> {
            &&& view == Err::<ReldexErrorView<'a>, _>(ReldexStatus::InvalidArgument)
            &&& final(boundary)@ == old(boundary)@.argument_error(
                "reldex_error_view: `error` is null or unaligned"@,
            )
        },
        !old(boundary)@.in_waker && error is Some && out is None ==> {
            &&& view == Err::<ReldexErrorView<'a>, _>(ReldexStatus::InvalidArgument)
            &&& final(boundary)@ == old(boundary)@.argument_error(
                "reldex_error_view: `out` is null, unaligned, or too small"@,
            )
        },
        !old(boundary)@.in_waker && error is Some && out is Some ==> {
            &&& view matches Ok(view) && view.describes(error->0@) && view.struct_size == out->0
            &&& final(boundary)@ == old(boundary)@
        },
{
    if boundary.refuse_reentrant() {
        return Err(ReldexStatus::Reentrant);
    }
    match (error, out) {
        (None, _) => Err(
            boundary.set_last_argument_error("reldex_error_view: `error` is null or unaligned"),
        ),
        (Some(_), None) => Err(
            boundary.set_last_argument_error(
                "reldex_error_view: `out` is null, unaligned, or too small",
            ),
        ),
        (Some(error), Some(valid)) => Ok(error.describe(valid)),
    }
}

/// Releases an error the caller was handed. Nothing to release is no failure; a
/// refused call leaves the error with the caller.
pub fn reldex_error_free(boundary: &mut Boundary, error: Option<ReldexError>) -> (kept: Option<
    ReldexError,
>)
    ensures
        old(boundary)@.in_waker ==> kept == error && final(boundary)@ == old(boundary)@.refused(),
        !old(boundary)@.in_waker ==> kept is None && final(boundary)@ == if error is Some {
            old(boundary)@.minus(Kind::Error)
        } else {
            old(boundary)@
        },
{
    if boundary.refuse_reentrant() {
        return error;
    }
    if error.is_some() {
        boundary.live.destroyed(Kind::Error);
    }
    None
}

/// An error shows its caller what was reported: the same category by its
/// number, the same words, the vendor's code and words where there were any, and
/// where in the statement it was where that was said.
pub proof fn an_error_shows_what_was_reported(
    live: &mut LiveCounters,
    error: &DbError,
    crossed: ReldexError,
    boundary: &mut Boundary,
    valid: u32,
    view: Result<ReldexErrorView<'_>, ReldexStatus>,
)
    requires
        !old(boundary)@.in_waker,
        call_ensures(ReldexError::from_db_error, (live, error), crossed),
        call_ensures(reldex_error_view, (boundary, Some(&crossed), Some(valid)), view),
    ensures
        view is Ok,
        view matches Ok(view) ==> {
            &&& view.struct_size == valid
            &&& view.message.text() == Some(error.message@)
            &&& view.retryable == error.retryable
            &&& view.has_native <==> error.native is Some
            &&& error.native matches Some(native) ==> view.native_code == native.code
                && view.native_message.text() == Some(native.message@)
            &&& error.native is None ==> view.native_code == 0 && view.native_message.text()
                == Some(Seq::<char>::empty())
            &&& view.has_char_offset <==> (error.position matches Some(position)
                && position.char_offset is Some)
            &&& view.has_line_column <==> (error.position matches Some(position)
                && position.line is Some)
            &&& error.position matches Some(position) ==> {
                &&& position.char_offset matches Some(offset) ==> view.char_offset == offset
                &&& position.line matches Some(line) ==> view.line == line
                &&& position.column matches Some(column) ==> view.column == column
            }
            &&& error.sources@.len() == 0 ==> view.cause.text() == Some(Seq::<char>::empty())
            &&& error.sources@.len() == 1 ==> view.cause.text() == Some(error.sources@[0]@)
            &&& view.session_state == 1 <==> error.session_state is Usable
            &&& view.session_state == 2 <==> error.session_state is NeedsValidation
            &&& view.session_state == 3 <==> error.session_state is Lost
            &&& view.kind == 0 <==> error.kind is Unrecognized
            &&& view.kind == 1 <==> error.kind is Configuration
            &&& view.kind == 2 <==> error.kind is Connection
            &&& view.kind == 3 <==> error.kind is Authentication
            &&& view.kind == 4 <==> error.kind is NetworkLost
            &&& view.kind == 5 <==> error.kind is Timeout
            &&& view.kind == 6 <==> error.kind is Cancelled
            &&& view.kind == 7 <==> error.kind is Syntax
            &&& view.kind == 8 <==> error.kind is Constraint
            &&& view.kind == 9 <==> error.kind is Permission
            &&& view.kind == 10 <==> error.kind is Transaction
            &&& view.kind == 11 <==> error.kind is Resource
            &&& view.kind == 12 <==> error.kind is DataConversion
            &&& view.kind == 13 <==> error.kind is Unsupported
            &&& view.kind == 14 <==> error.kind is DriverInternal
            &&& view.kind == 15 <==> error.kind is Other
        },
        final(live).errors == crate::counters::next_count(old(live).errors),
{
    reveal_with_fuel(joined_causes, 2);
    if error.sources@.len() == 1 {
        assert(error.sources@.drop_last() =~= Seq::<String>::empty());
        assert(error.sources@.last()@.len() == 0 ==> error.sources@[0]@ =~= Seq::<char>::empty());
    }
}

/// The failures behind a failure are told nearest first, a colon between any two
/// of them: those of two lists are those of the first, then those of the second.
pub proof fn causes_are_joined_in_order(nearer: Seq<String>, further: Seq<String>)
    requires
        joined_causes(nearer).len() > 0,
        further.len() > 0,
        further[0]@.len() > 0,
    ensures
        joined_causes(nearer + further) == joined_causes(nearer) + ": "@ + joined_causes(further),
    decreases further.len(),
{
    let all = nearer + further;
    assert(all.drop_last() =~= nearer + further.drop_last());
    if further.len() == 1 {
        assert(nearer + further.drop_last() =~= nearer);
        assert(further.drop_last() =~= Seq::<String>::empty());
        reveal_with_fuel(joined_causes, 2);
    } else {
        causes_are_joined_in_order(nearer, further.drop_last());
        first_cause_shows(further.drop_last());
        assert(joined_causes(all) =~= joined_causes(nearer) + ": "@ + joined_causes(further));
    }
}

/// Causes that begin with one that says something say something.
proof fn first_cause_shows(causes: Seq<String>)
    requires
        causes.len() > 0,
        causes[0]@.len() > 0,
    ensures
        joined_causes(causes).len() > 0,
    decreases causes.len(),
{
    if causes.len() == 1 {
        assert(causes.drop_last() =~= Seq::<String>::empty());
        reveal_with_fuel(joined_causes, 2);
    } else {
        first_cause_shows(causes.drop_last());
    }
}

/// A number that a caller passes back names the category it was handed out for,
/// and zero names none.
pub proof fn a_category_is_known_by_its_number(
    kind: ErrorKind,
    stable: ReldexErrorKind,
    number: i32,
    named: Option<ReldexErrorKind>,
    again: Option<ErrorKind>,
)
    requires
        call_ensures(ReldexErrorKind::from_error_kind, (kind,), stable),
        number == stable as i32,
        call_ensures(ReldexErrorKind::from_i32, (number,), named),
        named matches Some(named) ==> call_ensures(ReldexErrorKind::to_error_kind, (named,), again),
    ensures
        named is Some <==> kind !is Unrecognized,
        kind !is Unrecognized ==> again == Some(kind),
        number == 7 <==> kind is Syntax,
        number == 0 <==> kind is Unrecognized,
{
}

/// Taking the last error hands it out once: it is the one that was recorded, and
/// behind it there is none. Clearing it leaves none either, and a new one
/// replaces the one before.
pub proof fn the_last_error_is_taken_once(
    boundary: &mut Boundary,
    again: &mut Boundary,
    taken: Option<ReldexError>,
    then: Option<ReldexError>,
)
    requires
        !old(boundary)@.in_waker,
        call_ensures(reldex_last_error_take, (boundary,), taken),
        *old(again) == *final(boundary),
        call_ensures(reldex_last_error_take, (again,), then),
    ensures
        taken is Some <==> old(boundary)@.last_error is Some,
        taken matches Some(error) ==> Some(error@) == old(boundary)@.last_error,
        then is None,
        final(again)@.last_error is None,
        final(boundary)@.live == old(boundary)@.live,
{
}

/// An error is counted from when it crosses until it is released, among the errors
/// and nowhere else; a refused release leaves it with its caller.
pub proof fn an_error_is_counted_until_released(
    live: &mut LiveCounters,
    reported: DbError,
    error: ReldexError,
    boundary: &mut Boundary,
    kept: Option<ReldexError>,
)
    requires
        call_ensures(ReldexError::from_db_error, (live, &reported), error),
        call_ensures(reldex_error_free, (boundary, Some(error)), kept),
    ensures
        *final(live) == (LiveCounters {
            errors: next_count(old(live).errors),
            ..*old(live)
        }),
        !old(boundary)@.in_waker ==> {
            &&& kept is None
            &&& old(boundary)@.live == *final(live) ==> final(boundary)@.live == *old(live)
            &&& final(boundary)@.last_error == old(boundary)@.last_error
        },
        old(boundary)@.in_waker ==> kept == Some(error),
{
}

/// A state of a session has its own number, whether a failure reports it or the
/// session itself; only a session can be closed.
pub proof fn a_session_state_is_known_by_its_number(
    state: SessionState,
    reported: ReldexSessionState,
    lifecycle: SessionLifecycle,
    stable: ReldexSessionState,
)
    requires
        call_ensures(ReldexSessionState::from_state, (state,), reported),
        call_ensures(ReldexSessionState::from_lifecycle, (lifecycle,), stable),
    ensures
        state == SessionState::Usable <==> reported as i32 == 1,
        state == SessionState::NeedsValidation <==> reported as i32 == 2,
        state == SessionState::Lost <==> reported as i32 == 3,
        lifecycle == SessionLifecycle::Usable <==> stable as i32 == 1,
        lifecycle == SessionLifecycle::NeedsValidation <==> stable as i32 == 2,
        lifecycle == SessionLifecycle::Lost <==> stable as i32 == 3,
        lifecycle == SessionLifecycle::Closed <==> stable as i32 == 4,
{
}

/// A cleared error is gone, and counted no more; where there was none, nothing
/// changes.
pub proof fn a_cleared_error_is_gone(boundary: &mut Boundary)
    requires
        !old(boundary)@.in_waker,
        call_ensures(reldex_last_error_clear, (boundary,), ()),
    ensures
        final(boundary)@.last_error is None,
        old(boundary)@.last_error is None ==> final(boundary)@ == old(boundary)@,
        old(boundary)@.last_error is Some && old(boundary)@.live.errors > 0
            ==> final(boundary)@.live.errors == old(boundary)@.live.errors - 1,
        final(boundary)@.live.hubs == old(boundary)@.live.hubs,
        final(boundary)@.live.sessions == old(boundary)@.live.sessions,
        final(boundary)@.live.batches == old(boundary)@.live.batches,
{
}

/// A failure that is made here says no more than it was given: its category and its
/// words, of a session that stays usable, not to be tried again, and with nothing
/// of a server.
pub proof fn a_made_failure_says_no_more_than_it_was_given(
    kind: ErrorKind,
    message: String,
    error: DbError,
    internal: DbError,
)
    requires
        call_ensures(DbError::new, (kind, message), error),
        call_ensures(DbError::internal, (message,), internal),
    ensures
        error@.message == message@,
        error@.kind == ReldexErrorKind::of(kind),
        error@.session_state as i32 == 1,
        !error@.retryable,
        error@.native_code is None && error@.native_message is None,
        error@.position is None,
        error@.cause is None,
        internal@.message == message@,
        internal@.kind as i32 == 14,
        internal@.session_state as i32 == 1,
        !internal@.retryable,
        internal@.native_code is None && internal@.position is None && internal@.cause is None,
{
}

} // verus!
