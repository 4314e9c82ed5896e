//! What both kernel interfaces have in common: errors and watch types.
use vstd::prelude::*;

verus! {

/// Possible errors.
#[derive(Clone, Copy, Debug, PartialEq, Eq, Structural)]
pub enum Error {
    /// Modification of the set failed because it's currently waiting for events.
    Waiting,
    /// Out of resources or some other error not specified here.
    Resources,
    /// `wait` was interrupted by a signal.
    Signal,
    /// Invalid file descriptor.
    BadFD,
    /// `add` was called with a file descriptor already in the set.
    Exists,
    /// `modify` or `delete` was called with a file descriptor not in the set.
    DoesntExist,
    /// The file descriptor doesn't support this operation.
    Unsupported,
    /// The process doesn't have the permission to perform this action.
    NoPermission,
}

/// Watch types.
#[derive(Clone, Copy, Debug, PartialEq, Eq, Structural)]
pub enum Type {
    /// Wait for the descriptor to become read-ready.
    Read,
    /// Wait for the descriptor to become write-ready.
    Write,
    /// Wait for the descriptor to become write- or read-ready.
    ReadWrite,
}

impl Type {
    /// Whether this watch reports read-readiness.
    pub open spec fn wants_read(self) -> bool {
        self is Read || self is ReadWrite
    }

    /// Whether this watch reports write-readiness.
    pub open spec fn wants_write(self) -> bool {
        self is Write || self is ReadWrite
    }
}

} // verus!
