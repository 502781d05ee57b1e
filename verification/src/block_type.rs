//! The kinds of city block.

use vstd::prelude::*;

verus! {

#[derive(Debug, Clone, Copy, PartialEq, Eq, Structural)]
pub enum BlockType {
    Shops,
    Water,
    Dock,
    Road,
    Bridge,
    NuclearPlant,
}

} // verus!
