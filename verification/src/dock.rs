//! A dock cell where ships load and unload.

use vstd::prelude::*;
use crate::block::{Block, BlockBase};
use crate::block_type::BlockType;
use crate::transport_policy::TransportPolicy;

verus! {

pub struct DockBlock {
    pub base: BlockBase,
}

impl DockBlock {
    pub fn new(id: usize) -> (r: DockBlock)
        ensures
            r.base == (BlockBase {
                id,
                position: (crate::coord::Coord { x: 0, y: 0 }),
                policy: TransportPolicy::Ship,
                occupied: false,
                block_type: BlockType::Dock,
            }),
    {
        DockBlock { base: BlockBase::new(id, TransportPolicy::Ship, BlockType::Dock) }
    }
}

impl Block for DockBlock {
    open spec fn base_spec(&self) -> BlockBase {
        self.base
    }

    open spec fn blocked_spec(&self) -> bool {
        false
    }

    fn get_id(&self) -> (r: usize) {
        self.base.id
    }

    fn get_policy(&self) -> (r: TransportPolicy) {
        self.base.policy
    }

    fn get_type(&self) -> (r: BlockType) {
        self.base.block_type
    }

    fn is_blocked(&self) -> (r: bool) {
        false
    }
}

} // verus!
