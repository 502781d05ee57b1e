//! Alert levels of a nuclear plant.

use vstd::prelude::*;

verus! {

/// `Stable -> AtRisk -> Critical -> Boom`, one step per elapsed
/// interval; `Boom` is final.
#[derive(Debug, Clone, Copy, PartialEq, Eq, Structural)]
pub enum PlantStatus {
    Stable,
    AtRisk,
    Critical,
    Boom,
}

} // verus!
