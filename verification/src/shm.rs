//! The decision kernels of the shared-memory system-call layer.
//!
//! The calls themselves (open, truncate, map, unlink) live outside the
//! engine; these functions fix how their raw outcomes are interpreted, so
//! that "absent" and "failed" mean the same thing on every path.

use vstd::prelude::*;

use crate::errors::ShmapError;

verus! {

/// Interprets the outcome of opening a segment for reading: a missing name is
/// the dedicated not-found error — it drives "absent" semantics upstream and
/// is never an OS failure — while every other failure carries its code.
pub fn open_read_outcome(fd_valid: bool, not_found: bool, os_error: i32) -> (r: Result<
    (),
    ShmapError,
>)
    ensures
        fd_valid ==> r is Ok,
        !fd_valid && not_found ==> r == Err::<(), ShmapError>(ShmapError::SegmentNotFound),
        !fd_valid && !not_found ==> r == Err::<(), ShmapError>(
            ShmapError::SegmentOpenFailed(os_error),
        ),
{
    if fd_valid {
        Ok(())
    } else if not_found {
        Err(ShmapError::SegmentNotFound)
    } else {
        Err(ShmapError::SegmentOpenFailed(os_error))
    }
}

/// Interprets the outcome of opening a segment for writing and resizing it:
/// the two steps fail with their own kinds, each carrying the OS code.
pub fn open_write_outcome(fd_valid: bool, truncate_ok: bool, os_error: i32) -> (r: Result<
    (),
    ShmapError,
>)
    ensures
        fd_valid && truncate_ok ==> r is Ok,
        !fd_valid ==> r == Err::<(), ShmapError>(ShmapError::SegmentOpenFailed(os_error)),
        fd_valid && !truncate_ok ==> r == Err::<(), ShmapError>(
            ShmapError::SegmentTruncateFailed(os_error),
        ),
{
    if !fd_valid {
        Err(ShmapError::SegmentOpenFailed(os_error))
    } else if !truncate_ok {
        Err(ShmapError::SegmentTruncateFailed(os_error))
    } else {
        Ok(())
    }
}

/// Idempotent delete: unlinking a name that is already absent is success, and
/// only a genuine OS failure is an error.
pub fn unlink_outcome(removed: bool, not_found: bool, os_error: i32) -> (r: Result<(), ShmapError>)
    ensures
        removed ==> r is Ok,
        !removed && not_found ==> r is Ok,
        !removed && !not_found ==> r == Err::<(), ShmapError>(
            ShmapError::SegmentUnlinkFailed(os_error),
        ),
{
    if removed {
        Ok(())
    } else if not_found {
        Ok(())
    } else {
        Err(ShmapError::SegmentUnlinkFailed(os_error))
    }
}

} // verus!
