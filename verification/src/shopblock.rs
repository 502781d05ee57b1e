//! A block holding a row of shops; no vehicle drives through it.

use vstd::prelude::*;
use crate::block::{Block, BlockBase};
use crate::block_type::BlockType;
use crate::shop::Shop;
use crate::transport_policy::TransportPolicy;

verus! {

pub struct ShopBlock {
    pub base: BlockBase,
    pub shops: Vec<Shop>,
}

impl ShopBlock {
    pub fn new(id: usize, shops: Vec<Shop>) -> (r: ShopBlock)
        ensures
            r.base == (BlockBase {
                id,
                position: (crate::coord::Coord { x: 0, y: 0 }),
                policy: TransportPolicy::NoVehicles,
                occupied: false,
                block_type: BlockType::Shops,
            }),
            r.shops == shops,
    {
        ShopBlock { base: BlockBase::new(id, TransportPolicy::NoVehicles, BlockType::Shops), shops }
    }

    pub fn get_shops(&self) -> (r: &Vec<Shop>)
        ensures
            r == &self.shops,
    {
        &self.shops
    }
}

impl Block for ShopBlock {
    open spec fn base_spec(&self) -> BlockBase {
        self.base
    }

    open spec fn blocked_spec(&self) -> bool {
        true
    }

    fn get_id(&self) -> (r: usize) {
        self.base.id
    }

    fn get_policy(&self) -> (r: TransportPolicy) {
        self.base.policy
    }

    fn get_type(&self) -> (r: BlockType) {
        self.base.block_type
    }

    fn is_blocked(&self) -> (r: bool) {
        true
    }
}

} // verus!
