//! The closed set of scheduling policies.

use vstd::prelude::*;

verus! {

/// Which policy queue a thread is ordered by. Selection between the
/// queues follows the fixed priority `RealTime > Lottery > RoundRobin`.
#[derive(Debug, Clone, Copy, PartialEq, Eq, Structural)]
pub enum SchedulerType {
    RoundRobin,
    Lottery,
    RealTime,
}

impl Default for SchedulerType {
    /// Threads created without an explicit policy are round-robin.
    fn default() -> (r: Self)
        ensures
            r == SchedulerType::RoundRobin,
    {
        SchedulerType::RoundRobin
    }
}

} // verus!
