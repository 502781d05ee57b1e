//! Which vehicles a block admits.

use vstd::prelude::*;
use crate::vehicle_type::VehicleType;

verus! {

#[derive(Debug, Clone, Copy, PartialEq, Eq, Structural)]
pub enum TransportPolicy {
    NoVehicles,
    Car,
    Truck,
    Ship,
    AnyVehicle,
}

/// The admission table: the car policy admits every road vehicle, the
/// truck and ship policies only their own kind.
pub open spec fn can_pass_spec(p: TransportPolicy, v: VehicleType) -> bool {
    match p {
        TransportPolicy::NoVehicles => false,
        TransportPolicy::Car => v == VehicleType::Car || v == VehicleType::Truck || v
            == VehicleType::Ambulance,
        TransportPolicy::Ship => v == VehicleType::Ship,
        TransportPolicy::Truck => v == VehicleType::Truck,
        TransportPolicy::AnyVehicle => true,
    }
}

impl TransportPolicy {
    pub fn can_pass(&self, v: VehicleType) -> (r: bool)
        ensures
            r == can_pass_spec(*self, v),
    {
        match self {
            TransportPolicy::NoVehicles => false,
            TransportPolicy::Car => matches!(
                v,
                VehicleType::Car | VehicleType::Truck | VehicleType::Ambulance
            ),
            TransportPolicy::Ship => matches!(v, VehicleType::Ship),
            TransportPolicy::Truck => matches!(v, VehicleType::Truck),
            TransportPolicy::AnyVehicle => true,
        }
    }
}

} // verus!
