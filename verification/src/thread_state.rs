//! Lifecycle states of a scheduled unit of work.

use vstd::prelude::*;

verus! {

/// The exhaustive state machine is
/// `New -> Ready -> Running -> {Blocked, Terminated}` and
/// `Blocked -> Ready` on wake-up; `Terminated` is absorbing.
#[derive(Debug, Clone, Copy, PartialEq, Eq, Structural)]
pub enum ThreadState {
    New,
    Ready,
    Running,
    Blocked,
    Terminated,
}

} // verus!
