//! The kinds of vehicle the transport policies distinguish.

use vstd::prelude::*;

verus! {

#[derive(Debug, Clone, Copy, PartialEq, Eq, Structural)]
pub enum VehicleType {
    Car,
    Truck,
    Ambulance,
    Ship,
}

} // verus!
