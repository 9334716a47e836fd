//! The boundary between a desktop adapter and the database core: every call
//! checks its arguments, decides, and says what comes back.
//!
//! What cannot be decided from plain values stays outside: raw pointers, locks,
//! threads, the session registry, the local store. Outside code hands plain
//! values in and takes plain values back, so that what is left is a function of
//! its arguments:
//!
//! * a pointer that may be null is an `Option`;
//! * a caller's struct that was read under the `struct_size` rule is an
//!   [`strings::InParam`], and a place for an answer is the number of bytes of
//!   it that will be valid;
//! * what belongs to the calling thread and to the process (the last error, the
//!   live counts, whether a waker is running) is a [`status::Boundary`];
//! * a call that has to reach the core takes two steps, one on either side of
//!   it.
//!
//! # The contract every call keeps
//!
//! * A call from inside a waker is refused and changes nothing but the last
//!   error.
//! * A call that is answered with anything but [`status::ReldexStatus::Okay`]
//!   has recorded why, as the last error.
//! * Exactly one reply comes for every accepted request, and none for a refused
//!   one.
//! * What is handed out is counted until it is released.

use vstd::prelude::*;

use crate::status::Boundary;

pub mod batch;
pub mod connect;
pub mod control;
pub mod counters;
pub mod decimal;
pub mod error;
pub mod event;
pub mod format;
pub mod history;
pub mod hub;
pub mod idmap;
pub mod metadata;
pub mod mock;
pub mod profile;
pub mod reply;
pub mod service;
pub mod session;
pub mod settings;
pub mod slots;
pub mod splitter;
pub mod status;
pub mod strings;
pub mod text;
pub mod translate;
pub mod worksheet;
pub mod workspace;

verus! {

/// The part of the interface version that changes when callers break.
pub const RELDEX_ABI_VERSION_MAJOR: u32 = 3;

/// The part of the interface version that changes when something is added.
pub const RELDEX_ABI_VERSION_MINOR: u32 = 1;

/// The interface version: the major part in the upper half, the minor in the
/// lower.
pub fn reldex_abi_version(boundary: &mut Boundary) -> (version: u32)
    ensures
        old(boundary)@.in_waker ==> version == 0 && final(boundary)@ == old(boundary)@.refused(),
        !old(boundary)@.in_waker ==> {
            &&& version == RELDEX_ABI_VERSION_MAJOR * 0x1_0000 + RELDEX_ABI_VERSION_MINOR
            &&& final(boundary)@ == old(boundary)@
        },
{
    if boundary.refuse_reentrant() {
        return 0;
    }
    assert((3u32 << 16) | 1u32 == 3u32 * 0x1_0000u32 + 1u32) by (bit_vector);
    (RELDEX_ABI_VERSION_MAJOR << 16) | RELDEX_ABI_VERSION_MINOR
}

/// The interface version says both of its parts: the major one in the upper half,
/// the minor one in the lower. A call from a waker is told neither.
pub proof fn a_version_says_both_parts(boundary: &mut Boundary, version: u32)
    requires
        call_ensures(reldex_abi_version, (boundary,), version),
    ensures
        !old(boundary)@.in_waker ==> version / 0x1_0000 == 3 && version % 0x1_0000 == 1,
        old(boundary)@.in_waker ==> version == 0,
{
}

} // verus!
