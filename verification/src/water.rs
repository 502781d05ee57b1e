//! A water cell with room for one ship.

use vstd::prelude::*;
use crate::block::{Block, BlockBase};
use crate::block_type::BlockType;
use crate::transport_policy::TransportPolicy;

verus! {

pub struct WaterBlock {
    pub base: BlockBase,
    pub has_space: bool,
}

impl WaterBlock {
    /// A free ship-policy water cell.
    pub fn new(id: usize) -> (r: WaterBlock)
        ensures
            r.base == (BlockBase {
                id,
                position: (crate::coord::Coord { x: 0, y: 0 }),
                policy: TransportPolicy::Ship,
                occupied: false,
                block_type: BlockType::Water,
            }),
            r.has_space,
    {
        WaterBlock {
            base: BlockBase::new(id, TransportPolicy::Ship, BlockType::Water),
            has_space: true,
        }
    }

    /// Takes the single slot; reports whether it was free.
    pub fn consume_space(&mut self) -> (r: bool)
        ensures
            !old(self).has_space ==> !r && *final(self) == *old(self),
            old(self).has_space ==> r && *final(self) == (WaterBlock {
                has_space: false,
                ..*old(self)
            }),
    {
        if !self.is_available() {
            return false;
        }
        self.has_space = false;
        true
    }

    pub fn liberate_space(&mut self)
        ensures
            *final(self) == (WaterBlock { has_space: true, ..*old(self) }),
    {
        self.has_space = true;
    }

    pub fn is_available(&self) -> (r: bool)
        ensures
            r == self.has_space,
    {
        self.has_space
    }
}

impl Block for WaterBlock {
    open spec fn base_spec(&self) -> BlockBase {
        self.base
    }

    open spec fn blocked_spec(&self) -> bool {
        !self.has_space
    }

    fn get_id(&self) -> (r: usize) {
        self.base.id
    }

    fn get_policy(&self) -> (r: TransportPolicy) {
        self.base.policy
    }

    fn get_type(&self) -> (r: BlockType) {
        self.base.block_type
    }

    fn is_blocked(&self) -> (r: bool) {
        !self.has_space
    }
}

} // verus!
