//! A bridge cell: a controller deciding admissions plus the mutex that
//! serializes crossings.

use vstd::prelude::*;
use crate::block::{Block, BlockBase};
use crate::block_type::BlockType;
use crate::control::Control;
use crate::mymutex::MyMutex;
use crate::transport_policy::TransportPolicy;

verus! {

pub struct BridgeBlock {
    pub base: BlockBase,
    pub control: Control,
    pub mutex: Option<MyMutex>,
}

impl BridgeBlock {
    /// A bridge guarded by the given controller and mutex: open to any
    /// vehicle where boats may pass under it, otherwise to road
    /// traffic only.
    pub fn new(id: usize, control: Control, mutex: MyMutex) -> (r: Self)
        ensures
            r.base == (BlockBase {
                id,
                position: (crate::coord::Coord { x: 0, y: 0 }),
                policy: if control.can_pass_boats {
                    TransportPolicy::AnyVehicle
                } else {
                    TransportPolicy::Car
                },
                occupied: false,
                block_type: BlockType::Bridge,
            }),
            r.control == control,
            r.mutex == Some(mutex),
    {
        let policy: TransportPolicy = if control.can_pass_boats {
            TransportPolicy::AnyVehicle
        } else {
            TransportPolicy::Car
        };
        BridgeBlock { base: BlockBase::new(id, policy, BlockType::Bridge), control, mutex: Some(mutex) }
    }

    /// Hands the mutex back to the caller, leaving the bridge without
    /// one.
    pub fn return_mutex(&mut self) -> (r: Option<MyMutex>)
        ensures
            r == old(self).mutex,
            final(self).mutex is None,
            final(self).base == old(self).base,
            final(self).control == old(self).control,
    {
        self.mutex.take()
    }
}

impl Block for BridgeBlock {
    open spec fn base_spec(&self) -> BlockBase {
        self.base
    }

    open spec fn blocked_spec(&self) -> bool {
        false
    }

    fn get_id(&self) -> (r: usize) {
        self.base.id
    }

    fn get_policy(&self) -> (r: TransportPolicy) {
        self.base.policy
    }

    fn get_type(&self) -> (r: BlockType) {
        self.base.block_type
    }

    fn is_blocked(&self) -> (r: bool) {
        false
    }
}

} // verus!
