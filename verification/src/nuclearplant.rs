//! A nuclear plant that degrades one alert level per elapsed interval
//! unless its supply demands are met.

use vstd::prelude::*;
use crate::block::{Block, BlockBase};
use crate::block_type::BlockType;
use crate::plant_status::PlantStatus;
use crate::supply::{SupplyKind, SupplySpec};
use crate::transport_policy::TransportPolicy;

verus! {

/// The alert level one interval later: one step down the chain
/// `Stable -> AtRisk -> Critical -> Boom`.
pub open spec fn next_status(s: PlantStatus) -> PlantStatus {
    match s {
        PlantStatus::Stable => PlantStatus::AtRisk,
        PlantStatus::AtRisk => PlantStatus::Critical,
        PlantStatus::Critical => PlantStatus::Boom,
        PlantStatus::Boom => PlantStatus::Boom,
    }
}

/// The two demands raised on entering `AtRisk`: nuclear material and
/// water, both under the plant's deadline policy.
pub open spec fn default_requirements(dead_line: usize) -> Seq<SupplySpec> {
    seq![
        SupplySpec { kind: SupplyKind::NuclearMaterial, dead_line, time_passed_ms: 0 },
        SupplySpec { kind: SupplyKind::Water, dead_line, time_passed_ms: 0 },
    ]
}

/// The demands left after a delivery of `k`.
pub open spec fn demands_without(s: Seq<SupplySpec>, k: SupplyKind) -> Seq<SupplySpec>
    decreases s.len(),
{
    if s.len() == 0 {
        Seq::empty()
    } else {
        let r = demands_without(s.drop_last(), k);
        if s.last().kind != k {
            r.push(s.last())
        } else {
            r
        }
    }
}

/// The scheduled kinds left after a delivery of `k`.
pub open spec fn kinds_without(s: Seq<SupplyKind>, k: SupplyKind) -> Seq<SupplyKind>
    decreases s.len(),
{
    if s.len() == 0 {
        Seq::empty()
    } else {
        let r = kinds_without(s.drop_last(), k);
        if s.last() != k {
            r.push(s.last())
        } else {
            r
        }
    }
}

pub struct NuclearPlantBlock {
    pub base: BlockBase,
    pub plant_status: PlantStatus,
    pub time_passed_ms: usize,
    pub dead_line_policy: usize,
    pub update_interval_ms: usize,
    pub required_supplies: Vec<SupplySpec>,
    pub scheduled_kinds: Vec<SupplyKind>,
}

impl NuclearPlantBlock {
    /// A stable plant with no outstanding demands.
    pub fn new(id: usize, dead_line_policy: usize, update_interval_ms: usize) -> (r: Self)
        ensures
            r.base == (BlockBase {
                id,
                position: (crate::coord::Coord { x: 0, y: 0 }),
                policy: TransportPolicy::NoVehicles,
                occupied: false,
                block_type: BlockType::NuclearPlant,
            }),
            r.plant_status == PlantStatus::Stable,
            r.time_passed_ms == 0,
            r.dead_line_policy == dead_line_policy,
            r.update_interval_ms == update_interval_ms,
            r.required_supplies@ == Seq::<SupplySpec>::empty(),
            r.scheduled_kinds@ == Seq::<SupplyKind>::empty(),
    {
        NuclearPlantBlock {
            base: BlockBase::new(id, TransportPolicy::NoVehicles, BlockType::NuclearPlant),
            plant_status: PlantStatus::Stable,
            dead_line_policy,
            required_supplies: Vec::new(),
            time_passed_ms: 0,
            update_interval_ms,
            scheduled_kinds: Vec::new(),
        }
    }

    /// Advances the plant's clock. Each time the accumulator reaches
    /// the interval, the alert level drops one step: entering `AtRisk`
    /// raises the default demands (if none are pending), and reaching
    /// `Boom` wipes the plant inert. Returns the (possibly new) status.
    pub fn advance_time(&mut self, time_passed: usize) -> (r: PlantStatus)
        requires
            old(self).time_passed_ms + time_passed <= usize::MAX,
        ensures
            r == final(self).plant_status,
            old(self).plant_status == PlantStatus::Boom ==> *final(self) == *old(self) && r
                == PlantStatus::Boom,
            old(self).plant_status != PlantStatus::Boom ==> {
                let total = old(self).time_passed_ms + time_passed;
                &&& (total < old(self).update_interval_ms ==> *final(self) == (NuclearPlantBlock {
                    time_passed_ms: total as usize,
                    ..*old(self)
                }) && r == old(self).plant_status)
                &&& (total >= old(self).update_interval_ms ==> {
                    let ns = next_status(old(self).plant_status);
                    &&& r == ns
                    &&& final(self).plant_status == ns
                    &&& final(self).time_passed_ms == total - old(self).update_interval_ms
                    &&& final(self).base == old(self).base
                    &&& (ns == PlantStatus::AtRisk ==> {
                        &&& final(self).required_supplies@ == if old(
                            self,
                        ).required_supplies@.len() == 0 {
                            default_requirements(old(self).dead_line_policy)
                        } else {
                            old(self).required_supplies@
                        }
                        &&& final(self).scheduled_kinds == old(self).scheduled_kinds
                        &&& final(self).dead_line_policy == old(self).dead_line_policy
                        &&& final(self).update_interval_ms == old(self).update_interval_ms
                    })
                    &&& (ns == PlantStatus::Critical ==> {
                        &&& final(self).required_supplies == old(self).required_supplies
                        &&& final(self).scheduled_kinds == old(self).scheduled_kinds
                        &&& final(self).dead_line_policy == old(self).dead_line_policy
                        &&& final(self).update_interval_ms == old(self).update_interval_ms
                    })
                    &&& (ns == PlantStatus::Boom ==> {
                        &&& final(self).required_supplies@ == Seq::<SupplySpec>::empty()
                        &&& final(self).scheduled_kinds@ == Seq::<SupplyKind>::empty()
                        &&& final(self).dead_line_policy == 0
                        &&& final(self).update_interval_ms == 0
                    })
                })
            },
    {
        if self.plant_status == PlantStatus::Boom {
            return PlantStatus::Boom;
        }
        self.time_passed_ms = self.time_passed_ms + time_passed;
        if self.time_passed_ms >= self.update_interval_ms {
            self.time_passed_ms = self.time_passed_ms - self.update_interval_ms;
            let next = self.compute_next_status();
            self.apply_transition(next);
        }
        self.plant_status
    }

    /// The alert level the next elapsed interval will bring.
    fn compute_next_status(&self) -> (r: PlantStatus)
        ensures
            r == next_status(self.plant_status),
    {
        match self.plant_status {
            PlantStatus::Stable => PlantStatus::AtRisk,
            PlantStatus::AtRisk => PlantStatus::Critical,
            PlantStatus::Critical => PlantStatus::Boom,
            PlantStatus::Boom => PlantStatus::Boom,
        }
    }

    /// Raises the two default demands, replacing whatever was queued.
    fn enqueue_default_requirements(&mut self)
        ensures
            *final(self) == (NuclearPlantBlock {
                required_supplies: final(self).required_supplies,
                ..*old(self)
            }),
            final(self).required_supplies@ == default_requirements(old(self).dead_line_policy),
    {
        let dl = self.dead_line_policy;
        self.required_supplies = Vec::new();
        self.required_supplies.push(
            SupplySpec { kind: SupplyKind::NuclearMaterial, dead_line: dl, time_passed_ms: 0 },
        );
        self.required_supplies.push(
            SupplySpec { kind: SupplyKind::Water, dead_line: dl, time_passed_ms: 0 },
        );
        proof {
            assert(self.required_supplies@ =~= default_requirements(old(self).dead_line_policy));
        }
    }

    /// Applies one alert-level transition and its side effects.
    fn apply_transition(&mut self, next: PlantStatus)
        ensures
            old(self).plant_status == next ==> *final(self) == *old(self),
            old(self).plant_status != next ==> {
                &&& final(self).plant_status == next
                &&& final(self).base == old(self).base
                &&& final(self).time_passed_ms == old(self).time_passed_ms
                &&& (next == PlantStatus::AtRisk ==> {
                    &&& final(self).required_supplies@ == if old(self).required_supplies@.len()
                        == 0 {
                        default_requirements(old(self).dead_line_policy)
                    } else {
                        old(self).required_supplies@
                    }
                    &&& final(self).scheduled_kinds == old(self).scheduled_kinds
                    &&& final(self).dead_line_policy == old(self).dead_line_policy
                    &&& final(self).update_interval_ms == old(self).update_interval_ms
                })
                &&& (next == PlantStatus::Critical || next == PlantStatus::Stable ==> {
                    &&& final(self).required_supplies == old(self).required_supplies
                    &&& final(self).scheduled_kinds == old(self).scheduled_kinds
                    &&& final(self).dead_line_policy == old(self).dead_line_policy
                    &&& final(self).update_interval_ms == old(self).update_interval_ms
                })
                &&& (next == PlantStatus::Boom ==> {
                    &&& final(self).required_supplies@ == Seq::<SupplySpec>::empty()
                    &&& final(self).scheduled_kinds@ == Seq::<SupplyKind>::empty()
                    &&& final(self).dead_line_policy == 0
                    &&& final(self).update_interval_ms == 0
                })
            },
    {
        let prev = self.plant_status;
        if prev == next {
            return ;
        }
        self.plant_status = next;
        match next {
            PlantStatus::AtRisk => {
                if self.required_supplies.len() == 0 {
                    self.enqueue_default_requirements();
                }
            },
            PlantStatus::Critical => {},
            PlantStatus::Boom => {
                self.required_supplies = Vec::new();
                self.scheduled_kinds = Vec::new();
                self.dead_line_policy = 0;
                self.update_interval_ms = 0;
            },
            PlantStatus::Stable => {},
        }
    }

    /// Accepts a delivery: demands and scheduled kinds of the delivered
    /// kind are cleared, and a plant with nothing left pending returns
    /// to `Stable`.
    pub fn commit_delivery(&mut self, delivered_kind: SupplyKind)
        ensures
            final(self).required_supplies@ == demands_without(
                old(self).required_supplies@,
                delivered_kind,
            ),
            final(self).scheduled_kinds@ == kinds_without(
                old(self).scheduled_kinds@,
                delivered_kind,
            ),
            final(self).required_supplies@.len() == 0 ==> final(self).plant_status
                == PlantStatus::Stable,
            final(self).required_supplies@.len() > 0 ==> final(self).plant_status == old(
                self,
            ).plant_status,
            final(self).base == old(self).base,
            final(self).time_passed_ms == old(self).time_passed_ms,
            final(self).dead_line_policy == old(self).dead_line_policy,
            final(self).update_interval_ms == old(self).update_interval_ms,
    {
        let ghost oreq = self.required_supplies@;
        let mut kept: Vec<SupplySpec> = Vec::new();
        let n = self.required_supplies.len();
        let mut i: usize = 0;
        proof {
            assert(oreq.take(0) =~= Seq::<SupplySpec>::empty());
        }
        while i < n
            invariant
                n == self.required_supplies@.len(),
                self.required_supplies@ == oreq,
                i <= n,
                kept@ == demands_without(oreq.take(i as int), delivered_kind),
            decreases n - i,
        {
            let e = self.required_supplies[i];
            proof {
                assert(oreq.take(i + 1).drop_last() =~= oreq.take(i as int));
                assert(oreq.take(i + 1).last() == oreq[i as int]);
            }
            if !kinds_equal(e.kind, delivered_kind) {
                kept.push(e);
            }
            i = i + 1;
        }
        proof {
            assert(oreq.take(n as int) =~= oreq);
        }
        self.required_supplies = kept;

        let ghost osch = self.scheduled_kinds@;
        let mut kept_kinds: Vec<SupplyKind> = Vec::new();
        let m = self.scheduled_kinds.len();
        let mut j: usize = 0;
        proof {
            assert(osch.take(0) =~= Seq::<SupplyKind>::empty());
        }
        while j < m
            invariant
                m == self.scheduled_kinds@.len(),
                self.scheduled_kinds@ == osch,
                j <= m,
                kept_kinds@ == kinds_without(osch.take(j as int), delivered_kind),
            decreases m - j,
        {
            let k = self.scheduled_kinds[j];
            proof {
                assert(osch.take(j + 1).drop_last() =~= osch.take(j as int));
                assert(osch.take(j + 1).last() == osch[j as int]);
            }
            if !kinds_equal(k, delivered_kind) {
                kept_kinds.push(k);
            }
            j = j + 1;
        }
        proof {
            assert(osch.take(m as int) =~= osch);
        }
        self.scheduled_kinds = kept_kinds;

        if self.required_supplies.len() == 0 {
            self.plant_status = PlantStatus::Stable;
        }
    }
}

/// Exact comparison of two supply kinds.
fn kinds_equal(a: SupplyKind, b: SupplyKind) -> (r: bool)
    ensures
        r == (a == b),
{
    match (a, b) {
        (SupplyKind::NuclearMaterial, SupplyKind::NuclearMaterial) => true,
        (SupplyKind::Water, SupplyKind::Water) => true,
        _ => false,
    }
}

impl Block for NuclearPlantBlock {
    open spec fn base_spec(&self) -> BlockBase {
        self.base
    }

    open spec fn blocked_spec(&self) -> bool {
        true
    }

    fn get_id(&self) -> (r: usize) {
        self.base.id
    }

    fn get_policy(&self) -> (r: TransportPolicy) {
        self.base.policy
    }

    fn get_type(&self) -> (r: BlockType) {
        self.base.block_type
    }

    fn is_blocked(&self) -> (r: bool) {
        true
    }
}

} // verus!
