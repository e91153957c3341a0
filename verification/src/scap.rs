//! Values as the event format writes them.

use vstd::prelude::*;

verus! {

/// The kernel's directory descriptor for the current working directory.
pub const AT_FDCWD: i32 = -100;

/// The event format's directory descriptor for the current working
/// directory.
pub const PPM_AT_FDCWD: i32 = -100;

/// A directory descriptor as events hold it: the event format's own value
/// for the current working directory, and any other descriptor as it is.
pub open spec fn spec_encode_dirfd(dirfd: i32) -> i32 {
    if dirfd == AT_FDCWD {
        PPM_AT_FDCWD
    } else {
        dirfd
    }
}

/// Encodes a directory descriptor for an event.
pub fn encode_dirfd(dirfd: i32) -> (encoded: i32)
    ensures
        encoded == spec_encode_dirfd(dirfd),
{
    if dirfd == AT_FDCWD {
        PPM_AT_FDCWD
    } else {
        dirfd
    }
}

} // verus!
