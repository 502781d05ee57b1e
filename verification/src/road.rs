//! A road cell with a small number of vehicle slots.

use vstd::prelude::*;
use crate::block::{Block, BlockBase};
use crate::block_type::BlockType;
use crate::transport_policy::TransportPolicy;

verus! {

pub struct RoadBlock {
    pub base: BlockBase,
    pub space: u8,
}

impl RoadBlock {
    /// A car-policy road cell with four free slots.
    pub fn new(id: usize) -> (r: RoadBlock)
        ensures
            r.base == BlockBase::spec_road_base(id),
            r.space == 4,
    {
        RoadBlock { base: BlockBase::new(id, TransportPolicy::Car, BlockType::Road), space: 4 }
    }

    pub fn is_available(&self) -> (r: bool)
        ensures
            r == (self.space > 0),
    {
        self.space > 0
    }

    /// Takes one slot; reports whether one was free.
    pub fn consume_space(&mut self) -> (r: bool)
        ensures
            old(self).space == 0 ==> !r && *final(self) == *old(self),
            old(self).space > 0 ==> r && *final(self) == (RoadBlock {
                space: (old(self).space - 1) as u8,
                ..*old(self)
            }),
    {
        if !self.is_available() {
            return false;
        }
        self.space = self.space - 1;
        true
    }

    /// Returns one slot.
    pub fn liberate_space(&mut self)
        requires
            old(self).space < u8::MAX,
        ensures
            *final(self) == (RoadBlock { space: (old(self).space + 1) as u8, ..*old(self) }),
    {
        self.space = self.space + 1;
    }
}

impl BlockBase {
    /// The base every road cell starts from.
    pub open spec fn spec_road_base(id: usize) -> BlockBase {
        BlockBase {
            id,
            position: (crate::coord::Coord { x: 0, y: 0 }),
            policy: TransportPolicy::Car,
            occupied: false,
            block_type: BlockType::Road,
        }
    }
}

impl Block for RoadBlock {
    open spec fn base_spec(&self) -> BlockBase {
        self.base
    }

    open spec fn blocked_spec(&self) -> bool {
        self.space == 0
    }

    fn get_id(&self) -> (r: usize) {
        self.base.id
    }

    fn get_policy(&self) -> (r: TransportPolicy) {
        self.base.policy
    }

    fn get_type(&self) -> (r: BlockType) {
        self.base.block_type
    }

    fn is_blocked(&self) -> (r: bool) {
        self.space == 0
    }
}

} // verus!
