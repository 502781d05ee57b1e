//! Grid coordinates.

use vstd::prelude::*;

verus! {

/// A cell position on a city grid; `x` grows rightward, `y` downward.
#[derive(Debug, Clone, Copy, PartialEq, Eq, Structural, Hash)]
pub struct Coord {
    pub x: i16,
    pub y: i16,
}

impl Coord {
    pub fn new(x: i16, y: i16) -> (r: Self)
        ensures
            r == (Coord { x, y }),
    {
        Coord { x, y }
    }
}

} // verus!
