//! Supplies a nuclear plant may demand.

use vstd::prelude::*;

verus! {

#[derive(Debug, Clone, Copy, PartialEq, Eq, Structural)]
pub enum SupplyKind {
    NuclearMaterial,
    Water,
}

/// One outstanding supply demand: what is needed, by when, and how long
/// it has been pending.
#[derive(Debug, Clone, Copy, PartialEq, Eq, Structural)]
pub struct SupplySpec {
    pub kind: SupplyKind,
    pub dead_line: usize,
    pub time_passed_ms: usize,
}

} // verus!
