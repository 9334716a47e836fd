//! Status codes, and what every exported function goes through: the refusal of
//! calls from inside a waker, the last error, and the containment of a panic.

use vstd::prelude::*;

use crate::counters::{Kind, LiveCounters};
use crate::error::{DbError, ErrorModel, ReldexError};

verus! {

/// What an exported function reports.
///
/// `0` is reserved for a status the caller's header predates.
#[derive(Debug, Clone, Copy, PartialEq, Eq, Structural)]
pub enum ReldexStatus {
    /// A status value this header does not know. Never returned.
    Unknown,
    /// The call succeeded.
    Okay,
    /// The call failed with a database or core error. Take the details with
    /// `reldex_last_error_take`.
    Error,
    /// An argument was null, unaligned, out of range, or carried a
    /// `struct_size` this build cannot honour. Nothing was done.
    InvalidArgument,
    /// The object is not in a state where this call makes sense.
    InvalidState,
    /// An id was not found: it belongs to another session, or it was already
    /// closed.
    NotFound,
    /// A panic was caught at the boundary.
    Panic,
    /// The call was made from inside a waker callback. Nothing was done.
    Reentrant,
}

/// What one thread sees of the library when it calls in: whether it is inside
/// a waker, its last failure, and the live objects of the process.
#[verifier::ext_equal]
pub struct BoundaryModel {
    pub in_waker: bool,
    pub last_error: Option<ErrorModel>,
    pub live: LiveCounters,
}

/// The state every call goes through; see [`BoundaryModel`].
#[derive(Debug)]
pub struct Boundary {
    pub in_waker: bool,
    pub last_error: Option<ReldexError>,
    pub live: LiveCounters,
}

impl View for Boundary {
    type V = BoundaryModel;

    open spec fn view(&self) -> BoundaryModel {
        BoundaryModel {
            in_waker: self.in_waker,
            last_error: match self.last_error {
                Some(error) => Some(error@),
                None => None,
            },
            live: self.live,
        }
    }
}

/// What a call from inside a waker is told.
pub open spec fn reentrancy_error() -> ErrorModel {
    ErrorModel::internal(
        "reldex-ffi: an FFI function was called from inside a waker callback, which the ADR-0003 D5 contract forbids; the waker must only post to the adapter's event loop"@,
    )
}

impl BoundaryModel {
    /// Once `error` is the last failure. Only the most recent one is kept, so
    /// an earlier one goes.
    pub open spec fn failed(self, error: ErrorModel) -> Self {
        BoundaryModel {
            last_error: Some(error),
            live: if self.last_error is Some {
                self.live
            } else {
                self.live.plus(Kind::Error)
            },
            ..self
        }
    }

    /// Once an argument was refused with `message`.
    pub open spec fn argument_error(self, message: Seq<char>) -> Self {
        self.failed(ErrorModel::argument(message))
    }

    /// Once a call from inside a waker was refused.
    pub open spec fn refused(self) -> Self {
        self.failed(reentrancy_error())
    }

    /// Once one more object of `kind` exists.
    pub open spec fn plus(self, kind: Kind) -> Self {
        BoundaryModel { live: self.live.plus(kind), ..self }
    }

    /// Once one object of `kind` is gone.
    pub open spec fn minus(self, kind: Kind) -> Self {
        BoundaryModel { live: self.live.minus(kind), ..self }
    }
}

impl Boundary {
    /// A thread that has not called in yet, in a process without objects.
    pub fn new() -> (boundary: Self)
        ensures
            !boundary@.in_waker,
            boundary@.last_error is None,
            forall|kind: Kind| #[trigger] boundary@.live.count(kind) == 0,
    {
        Boundary { in_waker: false, last_error: None, live: LiveCounters::new() }
    }

    /// Marks the thread as inside a waker.
    pub fn enter_waker(&mut self)
        ensures
            final(self)@ == (BoundaryModel { in_waker: true, ..old(self)@ }),
    {
        self.in_waker = true;
    }

    /// Marks the thread as outside any waker again.
    pub fn leave_waker(&mut self)
        ensures
            final(self)@ == (BoundaryModel { in_waker: false, ..old(self)@ }),
    {
        self.in_waker = false;
    }

    /// Makes `error` the last failure.
    pub fn set_last_error(&mut self, error: DbError)
        ensures
            final(self)@ == old(self)@.failed(error@),
    {
        let crossed = ReldexError::from_db_error(&mut self.live, &error);
        self.set_last_reldex_error(crossed);
    }

    /// Makes an error that is already counted the last failure.
    pub fn set_last_reldex_error(&mut self, error: ReldexError)
        ensures
            final(self)@ == (BoundaryModel {
                last_error: Some(error@),
                live: if old(self)@.last_error is Some {
                    old(self)@.live.minus(Kind::Error)
                } else {
                    old(self)@.live
                },
                ..old(self)@
            }),
    {
        if self.last_error.is_some() {
            self.live.destroyed(Kind::Error);
        }
        self.last_error = Some(error);
    }

    /// Records a refused argument, so that a caller can find out which one.
    pub fn set_last_argument_error(&mut self, message: &str) -> (status: ReldexStatus)
        ensures
            status == ReldexStatus::InvalidArgument,
            final(self)@ == old(self)@.argument_error(message@),
    {
        let mut text = String::new();
        text.append("reldex-ffi: ");
        text.append(message);
        assert(text@ =~= "reldex-ffi: "@ + message@);
        self.set_last_error(DbError::internal(text));
        ReldexStatus::InvalidArgument
    }

    /// Takes the last failure out, handing it to the caller.
    pub fn take_last_error(&mut self) -> (taken: Option<ReldexError>)
        ensures
            match taken {
                Some(error) => old(self)@.last_error == Some(error@),
                None => old(self)@.last_error is None,
            },
            final(self)@ == (BoundaryModel { last_error: None, ..old(self)@ }),
    {
        self.last_error.take()
    }

    /// Refuses a call from inside a waker, recording why.
    pub fn refuse_reentrant(&mut self) -> (refused: bool)
        ensures
            refused == old(self)@.in_waker,
            final(self)@ == if refused {
                old(self)@.refused()
            } else {
                old(self)@
            },
    {
        if self.in_waker {
            self.set_last_error(
                DbError::internal(
                    String::from_str(
                        "reldex-ffi: an FFI function was called from inside a waker callback, which the ADR-0003 D5 contract forbids; the waker must only post to the adapter's event loop",
                    ),
                ),
            );
            true
        } else {
            false
        }
    }
}

/// What a caught panic carried.
#[derive(Debug)]
pub enum PanicPayload {
    /// A message.
    Message(String),
    /// Something that is no message.
    Other,
}

/// The message a panic is reported with.
pub open spec fn panic_text(payload: PanicPayload) -> Seq<char> {
    match payload {
        PanicPayload::Message(message) => message@,
        PanicPayload::Other => "a non-string panic payload"@,
    }
}

/// The message a panic is reported with.
fn panic_message(payload: PanicPayload) -> (message: String)
    ensures
        message@ == panic_text(payload),
{
    match payload {
        PanicPayload::Message(message) => message,
        PanicPayload::Other => String::from_str("a non-string panic payload"),
    }
}

impl Boundary {
    /// Turns a caught panic into a last failure and a status.
    pub fn contain_panic(&mut self, payload: PanicPayload) -> (status: ReldexStatus)
        ensures
            status == ReldexStatus::Panic,
            final(self)@ == old(self)@.failed(
                ErrorModel::internal(
                    "reldex-ffi: a panic was caught at the FFI boundary: "@ + panic_text(payload),
                ),
            ),
    {
        let mut text = String::from_str("reldex-ffi: a panic was caught at the FFI boundary: ");
        let message = panic_message(payload);
        text.append(message.as_str());
        self.set_last_error(DbError::internal(text));
        ReldexStatus::Panic
    }

    /// Runs the body of an exported function that reports a status.
    pub fn entry<F: FnOnce() -> ReldexStatus>(&mut self, body: F) -> (status: ReldexStatus)
        requires
            body.requires(()),
        ensures
            old(self)@.in_waker ==> {
                &&& status == ReldexStatus::Reentrant
                &&& final(self)@ == old(self)@.refused()
            },
            !old(self)@.in_waker ==> body.ensures((), status) && final(self)@ == old(self)@,
    {
        if self.refuse_reentrant() {
            return ReldexStatus::Reentrant;
        }
        body()
    }

    /// Runs the body of an exported function that reports something else,
    /// falling back to `fallback` where the call is refused.
    pub fn entry_value<T, F: FnOnce() -> T>(&mut self, fallback: T, body: F) -> (value: T)
        requires
            body.requires(()),
        ensures
            old(self)@.in_waker ==> value == fallback && final(self)@ == old(self)@.refused(),
            !old(self)@.in_waker ==> body.ensures((), value) && final(self)@ == old(self)@,
    {
        if self.refuse_reentrant() {
            return fallback;
        }
        body()
    }
}

/// The last error is the latest: a failure is the one a caller finds, whatever
/// failed before it, and one error is counted for it, not one for each. Nothing
/// else is changed by a failure.
pub proof fn the_last_error_is_the_latest(
    boundary: BoundaryModel,
    earlier: ErrorModel,
    later: ErrorModel,
)
    ensures
        boundary.failed(later).last_error == Some(later),
        boundary.failed(earlier).failed(later) == boundary.failed(later),
        boundary.failed(later).in_waker == boundary.in_waker,
        boundary.failed(later).live.batches == boundary.live.batches,
        boundary.failed(later).live.sessions == boundary.live.sessions,
        boundary.last_error is None && boundary.live.errors < usize::MAX ==> boundary.failed(
            later,
        ).live.errors == boundary.live.errors + 1,
        boundary.last_error is Some ==> boundary.failed(later).live.errors == boundary.live.errors,
{
}

/// A refused argument is recorded in the words it was refused with, behind the
/// name of the library, as a fault of the caller's that is not worth retrying.
pub proof fn a_refused_argument_is_recorded(
    boundary: &mut Boundary,
    message: &str,
    status: ReldexStatus,
)
    requires
        call_ensures(Boundary::set_last_argument_error, (boundary, message), status),
    ensures
        status as i32 == 3,
        final(boundary)@.last_error matches Some(error) && {
            &&& error.message == "reldex-ffi: "@ + message@
            &&& error.kind as i32 == 14
            &&& !error.retryable
            &&& error.native_code is None
            &&& error.position is None
            &&& error.cause is None
        },
        final(boundary)@.in_waker == old(boundary)@.in_waker,
{
}

/// A call is refused exactly where its thread is inside a waker, and a refused
/// call finds out why from its last error. Entering and leaving a waker changes
/// nothing else.
pub proof fn a_call_from_a_waker_is_refused(boundary: &mut Boundary, refused: bool)
    requires
        call_ensures(Boundary::refuse_reentrant, (boundary,), refused),
    ensures
        refused <==> old(boundary).in_waker,
        refused ==> final(boundary)@.last_error is Some,
        !refused ==> final(boundary)@ == old(boundary)@,
        final(boundary).in_waker == old(boundary).in_waker,
{
}

/// A panic that was caught is a status of its own and a failure that says what
/// the panic said.
pub proof fn a_panic_is_reported_in_its_own_words(
    boundary: &mut Boundary,
    message: String,
    status: ReldexStatus,
)
    requires
        call_ensures(
            Boundary::contain_panic,
            (boundary, PanicPayload::Message(message)),
            status,
        ),
    ensures
        status as i32 == 6,
        final(boundary)@.last_error matches Some(error) && error.message
            == "reldex-ffi: a panic was caught at the FFI boundary: "@ + message@ && error.kind
            as i32 == 14,
{
}

/// What was recorded last is what is taken, once; taking it hands its count over
/// with it.
pub proof fn what_was_recorded_is_taken(
    recorded: &mut Boundary,
    error: DbError,
    boundary: &mut Boundary,
    taken: Option<ReldexError>,
)
    requires
        call_ensures(Boundary::set_last_error, (recorded, error), ()),
        call_ensures(Boundary::take_last_error, (boundary,), taken),
    ensures
        final(recorded)@.last_error == Some(error@),
        final(recorded)@.in_waker == old(recorded)@.in_waker,
        old(boundary)@ == final(recorded)@ ==> taken is Some && taken->0@ == error@,
        taken is Some <==> old(boundary)@.last_error is Some,
        final(boundary)@.last_error is None,
        final(boundary)@.live == old(boundary)@.live,
{
}

/// A waker is left as it was entered.
pub proof fn a_waker_is_left_as_it_was_entered(entered: &mut Boundary, left: &mut Boundary)
    requires
        call_ensures(Boundary::enter_waker, (entered,), ()),
        call_ensures(Boundary::leave_waker, (left,), ()),
    ensures
        final(entered)@.in_waker,
        !final(left)@.in_waker,
        final(entered)@.last_error == old(entered)@.last_error,
        final(entered)@.live == old(entered)@.live,
        !old(entered)@.in_waker && old(left)@ == final(entered)@ ==> final(left)@ == old(entered)@,
{
}

} // verus!
