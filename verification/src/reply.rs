//! How a kernel call reports its result, and what each report means to a caller.
//!
//! Calls on a map's elements return zero on success and leave the reason of a failure
//! in `errno`. Calls on the map object (configuration, pinning) return zero or the
//! negated errno.

use crate::error::{record_view, unit_view, Error, ErrorView};
use nix::errno::Errno;
use vstd::prelude::*;

verus! {

/// The errno by which Linux says that no entry has the given key.
pub const ENOENT: i32 = 2;

/// `nix::errno::Errno::last_raw`: the calling thread's errno. Nothing is claimed of
/// the number: it is whatever the last failing call left there.
#[verifier::external_body]
pub(crate) fn last_errno() -> i32 {
    Errno::last_raw()
}

/// `nix::errno::Errno::from_raw`, asked whether it names `ENOENT`. On Linux, where
/// these maps live, nix gives that name to the number 2 and to no other.
#[verifier::external_body]
pub(crate) fn is_no_entry(code: i32) -> (absent: bool)
    ensures
        absent == (code == ENOENT),
{
    matches!(Errno::from_raw(code), Errno::ENOENT)
}

/// A negated errno with its sign flipped back. The one number without a positive
/// counterpart stays as it is.
pub open spec fn flipped(ret: i32) -> i32 {
    if ret == i32::MIN {
        ret
    } else {
        (-ret) as i32
    }
}

/// What a call on the map object means: zero is success, anything else is the
/// negated errno of the refusal.
pub open spec fn object_outcome(ret: i32) -> Result<(), ErrorView> {
    if ret == 0 {
        Ok(())
    } else {
        Err(ErrorView::System(flipped(ret)))
    }
}

/// What a write to a map's elements means: zero is success, anything else is a
/// refusal whose reason is `errno`.
pub open spec fn element_outcome(ret: i32, errno: i32) -> Result<(), ErrorView> {
    if ret == 0 {
        Ok(())
    } else {
        Err(ErrorView::System(errno))
    }
}

/// What a read of a map's elements means: zero is success and `bytes` is the record;
/// a failure with `ENOENT` says that the key has no entry, which is no error; any
/// other failure is a refusal whose reason is `errno`.
pub open spec fn lookup_outcome(ret: i32, errno: i32, bytes: Seq<u8>) -> Result<
    Option<Seq<u8>>,
    ErrorView,
> {
    if ret == 0 {
        Ok(Some(bytes))
    } else if errno == ENOENT {
        Ok(None)
    } else {
        Err(ErrorView::System(errno))
    }
}

/// Translates the return value of a call on the map object.
pub fn object_result(ret: i32) -> (r: Result<(), Error>)
    ensures
        unit_view(r) == object_outcome(ret),
{
    if ret == 0 {
        Ok(())
    } else if ret == i32::MIN {
        Err(Error::System(ret))
    } else {
        Err(Error::System(-ret))
    }
}

/// Translates the return value of a write to a map's elements, given the errno
/// that the call left.
pub fn element_result(ret: i32, errno: i32) -> (r: Result<(), Error>)
    ensures
        unit_view(r) == element_outcome(ret, errno),
{
    if ret == 0 {
        Ok(())
    } else {
        Err(Error::System(errno))
    }
}

/// Translates the return value of a read of a map's elements, given the errno that
/// the call left and the buffer that it filled. The record comes back unchanged.
pub fn lookup_result(ret: i32, errno: i32, out: Vec<u8>) -> (r: Result<Option<Vec<u8>>, Error>)
    ensures
        record_view(r) == lookup_outcome(ret, errno, out@),
{
    if ret == 0 {
        Ok(Some(out))
    } else if is_no_entry(errno) {
        Ok(None)
    } else {
        Err(Error::System(errno))
    }
}

} // verus!
