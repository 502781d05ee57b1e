//! Scheduling attributes attached to a thread at creation.

use vstd::prelude::*;

verus! {

/// Lottery weight source; the effective ticket count is `max(1, priority)`.
pub type PriorityLevel = u8;

/// Per-thread scheduling attributes: the deadline consulted by the
/// real-time policy, the priority consulted by the lottery policy, and
/// the detached flag that makes a thread unjoinable.
#[derive(Debug, Clone, Copy, PartialEq, Eq, Structural)]
pub struct MyThreadAttr {
    pub dead_line: usize,
    pub priority: PriorityLevel,
    pub detached: bool,
}

impl MyThreadAttr {
    pub fn new(dead_line: usize, priority: PriorityLevel) -> (r: Self)
        ensures
            r.dead_line == dead_line,
            r.priority == priority,
            !r.detached,
    {
        MyThreadAttr { dead_line, priority, detached: false }
    }

    /// Marks the owner as detached; its result will not be joinable.
    pub fn detach(&mut self)
        ensures
            *final(self) == (MyThreadAttr { detached: true, ..*old(self) }),
    {
        self.detached = true;
    }
}

} // verus!
