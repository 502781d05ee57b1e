//! Status codes returned by every runtime and mutex operation.

use vstd::prelude::*;

verus! {

/// Closed enumeration of operation outcomes. No operation panics on a
/// recoverable error; it reports one of these instead.
#[derive(Debug, Clone, Copy, PartialEq, Eq, Structural)]
pub enum Exits {
    /// The operation succeeded.
    Success,
    /// The calling thread was queued behind a held mutex.
    ThreadBlocked,
    /// A mutex operation was attempted before `init`.
    MutexNotInitialized,
    /// A mutex was destroyed while locked or with waiting threads.
    MutexInvalidState,
    /// A mutex argument was missing or invalid.
    NullMutex,
    /// A lock request was granted immediately.
    MutexLockApproved,
    /// A lock request found the mutex already held.
    MutexLocked,
    /// An operation that needs a running thread found none.
    CurrentIsEmpty,
    /// The named thread has already terminated.
    ThreadIsTerminated,
    /// The runtime state named a thread missing from the table.
    UnknownThread,
    /// An unlock was attempted by a thread that does not own the mutex.
    MutexInvalidOwner,
    /// A thread attempted to join itself.
    SelfJoin,
    /// The join slot for the target is already taken.
    AlreadyWaiting,
    /// No joinable thread with the given identifier exists.
    NoSuchThread,
    /// Every ready queue is empty; nothing can be scheduled.
    NothingToRun,
}

} // verus!
