//! The data every block shares, the behaviour blocks expose, and the
//! closed set of concrete block kinds.

use vstd::prelude::*;
use crate::block_type::BlockType;
use crate::coord::Coord;
use crate::transport_policy::TransportPolicy;

verus! {

/// Fields common to every block: identifier, grid position, admission
/// policy, occupancy flag and kind.
#[derive(Debug, Clone, Copy, PartialEq, Eq, Structural)]
pub struct BlockBase {
    pub id: usize,
    pub position: Coord,
    pub policy: TransportPolicy,
    pub occupied: bool,
    pub block_type: BlockType,
}

impl BlockBase {
    /// A free block at the origin with the given identity.
    pub fn new(id: usize, policy: TransportPolicy, block_type: BlockType) -> (r: Self)
        ensures
            r == (BlockBase {
                id,
                position: (Coord { x: 0, y: 0 }),
                policy,
                occupied: false,
                block_type,
            }),
    {
        BlockBase { id, position: Coord::new(0, 0), policy, occupied: false, block_type }
    }
}

/// What every concrete block kind answers about itself.
pub trait Block {
    /// The shared fields of this block.
    spec fn base_spec(&self) -> BlockBase;

    /// Whether the block currently refuses entry.
    spec fn blocked_spec(&self) -> bool;

    fn get_id(&self) -> (r: usize)
        ensures
            r == self.base_spec().id,
    ;

    fn get_policy(&self) -> (r: TransportPolicy)
        ensures
            r == self.base_spec().policy,
    ;

    fn get_type(&self) -> (r: BlockType)
        ensures
            r == self.base_spec().block_type,
    ;

    fn is_blocked(&self) -> (r: bool)
        ensures
            r == self.blocked_spec(),
    ;
}

/// The closed set of block kinds a grid cell can hold.
pub enum CityBlock {
    Road(crate::road::RoadBlock),
    Water(crate::water::WaterBlock),
    Dock(crate::dock::DockBlock),
    Shops(crate::shopblock::ShopBlock),
    Bridge(crate::bridge::BridgeBlock),
    NuclearPlant(crate::nuclearplant::NuclearPlantBlock),
}

impl CityBlock {
    /// The shared fields of whichever block this cell holds.
    pub open spec fn base_spec(&self) -> BlockBase {
        match self {
            CityBlock::Road(b) => b.base,
            CityBlock::Water(b) => b.base,
            CityBlock::Dock(b) => b.base,
            CityBlock::Shops(b) => b.base,
            CityBlock::Bridge(b) => b.base,
            CityBlock::NuclearPlant(b) => b.base,
        }
    }

    pub fn get_id(&self) -> (r: usize)
        ensures
            r == self.base_spec().id,
    {
        match self {
            CityBlock::Road(b) => b.base.id,
            CityBlock::Water(b) => b.base.id,
            CityBlock::Dock(b) => b.base.id,
            CityBlock::Shops(b) => b.base.id,
            CityBlock::Bridge(b) => b.base.id,
            CityBlock::NuclearPlant(b) => b.base.id,
        }
    }

    pub fn get_policy(&self) -> (r: TransportPolicy)
        ensures
            r == self.base_spec().policy,
    {
        match self {
            CityBlock::Road(b) => b.base.policy,
            CityBlock::Water(b) => b.base.policy,
            CityBlock::Dock(b) => b.base.policy,
            CityBlock::Shops(b) => b.base.policy,
            CityBlock::Bridge(b) => b.base.policy,
            CityBlock::NuclearPlant(b) => b.base.policy,
        }
    }

    pub fn get_type(&self) -> (r: BlockType)
        ensures
            r == self.base_spec().block_type,
    {
        match self {
            CityBlock::Road(b) => b.base.block_type,
            CityBlock::Water(b) => b.base.block_type,
            CityBlock::Dock(b) => b.base.block_type,
            CityBlock::Shops(b) => b.base.block_type,
            CityBlock::Bridge(b) => b.base.block_type,
            CityBlock::NuclearPlant(b) => b.base.block_type,
        }
    }
}

} // verus!
