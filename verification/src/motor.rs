//! Movement phases of a vehicle approaching and crossing a bridge.

use vstd::prelude::*;

verus! {

#[derive(Debug, Clone, Copy, PartialEq, Eq, Structural)]
pub enum MoveState {
    Approaching,
    Waiting,
    Crossing,
    Leaving,
    Done,
}

} // verus!
