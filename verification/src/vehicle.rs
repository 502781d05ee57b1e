//! What a vehicle proposes to do next, and how patient it still is.

use vstd::prelude::*;
use crate::coord::Coord;

verus! {

/// A proposed move: arrived, onto a bridge cell (handled by the bridge
/// controller), or an ordinary advance.
#[derive(Debug, Clone, Copy, PartialEq, Eq, Structural)]
pub enum MoveIntent {
    Arrived,
    NextIsBridge { coord: Coord },
    AdvanceTo { coord: Coord },
}

/// How long a vehicle has been held up; `Maxed` records whether it
/// moved in the last step.
#[derive(Debug, Clone, Copy, PartialEq, Eq, Structural)]
pub enum PatienceLevel {
    Maxed { moved: bool },
    Low,
    Critical,
    Starved,
}

} // verus!
