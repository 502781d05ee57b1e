//! The mutex primitive: ownership tracking plus a FIFO wait list of
//! thread identifiers. The mutex never touches thread records; callers
//! react to the reported status.

use vstd::prelude::*;
use std::collections::VecDeque;
use crate::exits::Exits;
use crate::mythread::ThreadId;

verus! {

/// Mathematical model of a mutex: the four observable components, with
/// the wait list abstracted to the sequence of queued identifiers.
pub struct MutexView {
    pub initialized: bool,
    pub owner: Option<ThreadId>,
    pub locked: bool,
    pub waiters: Seq<ThreadId>,
}

/// What `lock(tid)` does to a mutex state: refused when uninitialized;
/// queues the caller (once) when held; otherwise grants and records
/// ownership.
pub open spec fn lock_transition(m: MutexView, tid: ThreadId) -> (MutexView, Exits) {
    if !m.initialized {
        (m, Exits::MutexNotInitialized)
    } else if m.locked {
        let queued = if m.waiters.contains(tid) {
            m.waiters
        } else {
            m.waiters.push(tid)
        };
        (MutexView { waiters: queued, ..m }, Exits::MutexLocked)
    } else {
        (MutexView { locked: true, owner: Some(tid), ..m }, Exits::MutexLockApproved)
    }
}

/// What `try_lock(tid)` does: as `lock`, but a held mutex is reported
/// without queueing the caller.
pub open spec fn try_lock_transition(m: MutexView, tid: ThreadId) -> (MutexView, Exits) {
    if !m.initialized {
        (m, Exits::MutexNotInitialized)
    } else if m.locked {
        (m, Exits::MutexLocked)
    } else {
        (MutexView { locked: true, owner: Some(tid), ..m }, Exits::MutexLockApproved)
    }
}

/// What `unlock(tid)` does: refused without a caller identity, refused
/// for a non-owner, otherwise the lock and ownership are cleared.
pub open spec fn unlock_transition(m: MutexView, tid: Option<ThreadId>) -> (MutexView, Exits) {
    if tid is None {
        (m, Exits::UnknownThread)
    } else if m.owner != tid {
        (m, Exits::MutexInvalidOwner)
    } else {
        (MutexView { locked: false, owner: None, ..m }, Exits::Success)
    }
}

/// A standalone lock over thread identifiers. A mutex accepts no
/// lock/unlock/try-lock operation before `init_mut`, and destruction
/// requires it to be unlocked with an empty wait list.
pub struct MyMutex {
    pub initialized: bool,
    pub owner: Option<ThreadId>,
    pub locked: bool,
    pub wait_queue: VecDeque<ThreadId>,
}

impl View for MyMutex {
    type V = MutexView;

    open spec fn view(&self) -> MutexView {
        MutexView {
            initialized: self.initialized,
            owner: self.owner,
            locked: self.locked,
            waiters: self.wait_queue@,
        }
    }
}

impl MyMutex {
    /// A fresh, uninitialized, unlocked mutex.
    pub fn new() -> (r: Self)
        ensures
            !r@.initialized,
            r@.owner is None,
            !r@.locked,
            r@.waiters == Seq::<ThreadId>::empty(),
    {
        MyMutex { initialized: false, owner: None, locked: false, wait_queue: VecDeque::new() }
    }

    /// Reports whether the mutex is currently held.
    pub fn is_locked(&self) -> (r: bool)
        ensures
            r == self@.locked,
    {
        self.locked
    }

    /// Resets the mutex to initialized, unlocked and unowned with an
    /// empty wait list.
    pub fn init_mut(&mut self) -> (r: Exits)
        ensures
            r == Exits::Success,
            final(self)@.initialized,
            final(self)@.owner is None,
            !final(self)@.locked,
            final(self)@.waiters == Seq::<ThreadId>::empty(),
    {
        self.locked = false;
        self.owner = None;
        self.wait_queue = VecDeque::new();
        self.initialized = true;
        Exits::Success
    }

    /// Uninitializes the mutex; fails while it is uninitialized, held,
    /// or has queued waiters.
    pub fn destroy(&mut self) -> (r: Exits)
        ensures
            (old(self)@.initialized && !old(self)@.locked && old(self)@.waiters.len() == 0) ==> {
                &&& r == Exits::Success
                &&& !final(self)@.initialized
                &&& final(self)@.owner is None
                &&& final(self)@.locked == old(self)@.locked
                &&& final(self)@.waiters == old(self)@.waiters
            },
            !(old(self)@.initialized && !old(self)@.locked && old(self)@.waiters.len() == 0) ==> {
                &&& r == Exits::MutexInvalidState
                &&& *final(self) == *old(self)
            },
    {
        if !self.initialized || self.locked || self.wait_queue.len() != 0 {
            return Exits::MutexInvalidState;
        }
        self.initialized = false;
        self.owner = None;
        Exits::Success
    }

    /// Requests the lock for `tid`: grants and records ownership when
    /// free, or queues `tid` (avoiding duplicates) when held.
    pub fn lock(&mut self, tid: ThreadId) -> (r: Exits)
        ensures
            (final(self)@, r) == lock_transition(old(self)@, tid),
    {
        if !self.initialized {
            return Exits::MutexNotInitialized;
        }
        if self.locked {
            if !wait_queue_contains(&self.wait_queue, tid) {
                self.wait_queue.push_back(tid);
            }
            return Exits::MutexLocked;
        }
        self.locked = true;
        self.owner = Some(tid);
        Exits::MutexLockApproved
    }

    /// As `lock`, but never queues the caller behind a held mutex.
    pub fn try_lock(&mut self, tid: ThreadId) -> (r: Exits)
        ensures
            (final(self)@, r) == try_lock_transition(old(self)@, tid),
    {
        if !self.initialized {
            return Exits::MutexNotInitialized;
        }
        if self.locked {
            return Exits::MutexLocked;
        }
        self.locked = true;
        self.owner = Some(tid);
        Exits::MutexLockApproved
    }

    /// Releases the lock; only the recorded owner may do so.
    pub fn unlock(&mut self, tid: Option<ThreadId>) -> (r: Exits)
        ensures
            (final(self)@, r) == unlock_transition(old(self)@, tid),
    {
        if tid.is_none() {
            return Exits::UnknownThread;
        }
        if self.owner != tid {
            return Exits::MutexInvalidOwner;
        }
        self.locked = false;
        self.owner = None;
        Exits::Success
    }
}

/// Linear scan for an identifier in the wait list.
fn wait_queue_contains(q: &VecDeque<ThreadId>, tid: ThreadId) -> (r: bool)
    ensures
        r == q@.contains(tid),
{
    let n = q.len();
    let mut i: usize = 0;
    while i < n
        invariant
            n == q@.len(),
            i <= n,
            forall|j: int| 0 <= j < i ==> q@[j] != tid,
        decreases n - i,
    {
        if q[i] == tid {
            return true;
        }
        i = i + 1;
    }
    false
}

/// Mutual exclusion: a `lock` that reports approved leaves the mutex
/// held, so until an `unlock` by the new owner intervenes, every further
/// `lock` reports "would block" and never "approved". The owner's
/// `unlock` re-opens the mutex for exactly one next approval.
pub proof fn lemma_mutex_mutual_exclusion(m: MutexView, t1: ThreadId, t2: ThreadId)
    ensures
        lock_transition(m, t1).1 == Exits::MutexLockApproved ==> {
            let held = lock_transition(m, t1).0;
            &&& lock_transition(held, t2).1 == Exits::MutexLocked
            &&& lock_transition(held, t2).1 != Exits::MutexLockApproved
            &&& try_lock_transition(held, t2).1 == Exits::MutexLocked
            &&& unlock_transition(held, Some(t1)).1 == Exits::Success
            &&& lock_transition(unlock_transition(held, Some(t1)).0, t2).1
                == Exits::MutexLockApproved
        },
{
}

} // verus!
