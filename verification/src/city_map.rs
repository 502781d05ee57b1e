//! The default city: a grid of plain block descriptors with occupancy,
//! traversability rules and breadth-first route finding.

use vstd::prelude::*;
use std::collections::VecDeque;
use crate::block::BlockBase;
use crate::block_type::BlockType;
use crate::coord::Coord;
use crate::transport_policy::TransportPolicy;
use crate::vehicle_type::VehicleType;

verus! {

/// The block kind the default city places at `(x, y)` of its 7x7 grid:
/// a river with three bridges across the middle row, nuclear plants in
/// two corners, shops scattered above the river, docks below it on the
/// left, and roads elsewhere.
pub open spec fn default_cell_type(x: int, y: int) -> BlockType {
    if y == 3 {
        if x == 1 || x == 3 || x == 5 {
            BlockType::Bridge
        } else {
            BlockType::Water
        }
    } else if (x == 0 && y == 0) || (x == 6 && y == 6) {
        BlockType::NuclearPlant
    } else if (x + y) % 5 == 0 && y < 3 {
        BlockType::Shops
    } else if y > 3 && x < 2 {
        BlockType::Dock
    } else {
        BlockType::Road
    }
}

/// The admission policy each block kind carries in the default city.
pub open spec fn default_policy(bt: BlockType) -> TransportPolicy {
    match bt {
        BlockType::Water => TransportPolicy::Ship,
        BlockType::Dock => TransportPolicy::Ship,
        BlockType::Bridge => TransportPolicy::AnyVehicle,
        BlockType::Road => TransportPolicy::AnyVehicle,
        BlockType::Shops => TransportPolicy::Car,
        BlockType::NuclearPlant => TransportPolicy::Truck,
    }
}

/// Which block kinds each vehicle kind may drive onto: ships keep to
/// water and docks, bridges admit everyone, road vehicles keep to
/// roads, cars and ambulances may stop at shops, and only trucks enter
/// a plant.
pub open spec fn traversable_spec(bt: BlockType, vt: VehicleType) -> bool {
    match (bt, vt) {
        (BlockType::Water, VehicleType::Ship) => true,
        (BlockType::Dock, VehicleType::Ship) => true,
        (BlockType::Bridge, _) => true,
        (BlockType::Road, VehicleType::Car) => true,
        (BlockType::Road, VehicleType::Ambulance) => true,
        (BlockType::Road, VehicleType::Truck) => true,
        (BlockType::Shops, VehicleType::Car) => true,
        (BlockType::Shops, VehicleType::Ambulance) => true,
        (BlockType::NuclearPlant, VehicleType::Truck) => true,
        _ => false,
    }
}

/// One orthogonal step apart.
pub open spec fn adjacent(a: Coord, b: Coord) -> bool {
    (a.x == b.x && (b.y == a.y + 1 || b.y == a.y - 1)) || (a.y == b.y && (b.x == a.x + 1 || b.x
        == a.x - 1))
}

/// The city grid: one plain block descriptor per cell.
pub struct CityMap {
    pub grid: Vec<Vec<BlockBase>>,
    pub height: usize,
    pub width: usize,
}

impl CityMap {
    pub open spec fn wf(&self) -> bool {
        &&& self.height == self.grid@.len()
        &&& self.height <= 0x7fff
        &&& self.width <= 0x7fff
        &&& forall|y: int|
            0 <= y < self.grid@.len() ==> (#[trigger] self.grid@[y]).len() == self.width
    }

    pub open spec fn in_bounds_spec(&self, c: Coord) -> bool {
        0 <= c.x < self.width && 0 <= c.y < self.height
    }

    pub open spec fn block_spec(&self, c: Coord) -> BlockBase {
        self.grid@[c.y as int][c.x as int]
    }

    /// Builds the fixed 7x7 default city.
    pub fn build_default() -> (r: Self)
        ensures
            r.wf(),
            r.height == 7,
            r.width == 7,
            forall|y: int, x: int|
                0 <= y < 7 && 0 <= x < 7 ==> #[trigger] r.grid@[y]@[x] == (BlockBase {
                    id: (y * 7 + x) as usize,
                    position: (Coord { x: x as i16, y: y as i16 }),
                    policy: default_policy(default_cell_type(x, y)),
                    occupied: false,
                    block_type: default_cell_type(x, y),
                }),
    {
        let width: usize = 7;
        let height: usize = 7;
        let mut grid: Vec<Vec<BlockBase>> = Vec::new();
        let mut y: usize = 0;
        while y < height
            invariant
                width == 7,
                height == 7,
                y <= 7,
                grid@.len() == y,
                forall|y0: int| 0 <= y0 < y ==> (#[trigger] grid@[y0]).len() == 7,
                forall|y0: int, x0: int|
                    0 <= y0 < y && 0 <= x0 < 7 ==> #[trigger] grid@[y0]@[x0] == (BlockBase {
                        id: (y0 * 7 + x0) as usize,
                        position: (Coord { x: x0 as i16, y: y0 as i16 }),
                        policy: default_policy(default_cell_type(x0, y0)),
                        occupied: false,
                        block_type: default_cell_type(x0, y0),
                    }),
            decreases height - y,
        {
            let mut row: Vec<BlockBase> = Vec::new();
            let mut x: usize = 0;
            while x < width
                invariant
                    width == 7,
                    height == 7,
                    y < 7,
                    x <= 7,
                    row@.len() == x,
                    forall|x0: int|
                        0 <= x0 < x ==> #[trigger] row@[x0] == (BlockBase {
                            id: (y * 7 + x0) as usize,
                            position: (Coord { x: x0 as i16, y: y as i16 }),
                            policy: default_policy(default_cell_type(x0, y as int)),
                            occupied: false,
                            block_type: default_cell_type(x0, y as int),
                        }),
                decreases width - x,
            {
                let block_type: BlockType = if y == height / 2 {
                    if x == 1 || x == 3 || x == 5 {
                        BlockType::Bridge
                    } else {
                        BlockType::Water
                    }
                } else if (x == 0 && y == 0) || (x == width - 1 && y == height - 1) {
                    BlockType::NuclearPlant
                } else if (x + y) % 5 == 0 && y < height / 2 {
                    BlockType::Shops
                } else {
                    if y > height / 2 && x < 2 {
                        BlockType::Dock
                    } else {
                        BlockType::Road
                    }
                };
                let policy = match block_type {
                    BlockType::Water => TransportPolicy::Ship,
                    BlockType::Dock => TransportPolicy::Ship,
                    BlockType::Bridge => TransportPolicy::AnyVehicle,
                    BlockType::Road => TransportPolicy::AnyVehicle,
                    BlockType::Shops => TransportPolicy::Car,
                    BlockType::NuclearPlant => TransportPolicy::Truck,
                };
                row.push(
                    BlockBase {
                        id: y * width + x,
                        position: Coord::new(x as i16, y as i16),
                        policy,
                        occupied: false,
                        block_type,
                    },
                );
                x = x + 1;
            }
            grid.push(row);
            y = y + 1;
        }
        CityMap { grid, width, height }
    }

    /// Borrows the block at an in-bounds coordinate.
    pub fn get_block(&self, coord: &Coord) -> (r: Option<&BlockBase>)
        requires
            self.wf(),
        ensures
            self.in_bounds_spec(*coord) ==> (r matches Some(b) && *b == self.block_spec(*coord)),
            !self.in_bounds_spec(*coord) ==> r is None,
    {
        if coord.x >= 0 && coord.y >= 0 && (coord.y as usize) < self.height && (coord.x as usize)
            < self.width {
            Some(&self.grid[coord.y as usize][coord.x as usize])
        } else {
            None
        }
    }

    /// Mutably borrows the block at an in-bounds coordinate.
    pub fn get_block_mut(&mut self, coord: &Coord) -> (r: &mut BlockBase)
        requires
            old(self).wf(),
            old(self).in_bounds_spec(*coord),
        ensures
            *r == old(self).block_spec(*coord),
            final(self).grid@.len() == old(self).grid@.len(),
            final(self).grid@[coord.y as int]@ == old(self).grid@[coord.y as int]@.update(
                coord.x as int,
                *final(r),
            ),
            forall|y: int|
                0 <= y < old(self).grid@.len() && y != coord.y ==> final(self).grid@[y] == old(
                    self,
                ).grid@[y],
            final(self).height == old(self).height,
            final(self).width == old(self).width,
            final(self).wf(),
    {
        let row: &mut Vec<BlockBase> = &mut self.grid[coord.y as usize];
        &mut row[coord.x as usize]
    }

    /// Claims the block for a vehicle: succeeds only on a free,
    /// in-bounds block.
    pub fn occupy_block(&mut self, coord: &Coord) -> (r: bool)
        requires
            old(self).wf(),
        ensures
            final(self).wf(),
            final(self).height == old(self).height,
            final(self).width == old(self).width,
            !(old(self).in_bounds_spec(*coord) && !old(self).block_spec(*coord).occupied) ==> !r
                && *final(self) == *old(self),
            old(self).in_bounds_spec(*coord) && !old(self).block_spec(*coord).occupied ==> {
                &&& r
                &&& final(self).grid@[coord.y as int]@ == old(self).grid@[coord.y as int]@.update(
                    coord.x as int,
                    (BlockBase { occupied: true, ..old(self).block_spec(*coord) }),
                )
                &&& forall|y: int|
                    0 <= y < old(self).grid@.len() && y != coord.y ==> final(self).grid@[y] == old(
                        self,
                    ).grid@[y]
            },
    {
        if coord.x >= 0 && coord.y >= 0 && (coord.y as usize) < self.height && (coord.x as usize)
            < self.width {
            let y = coord.y as usize;
            let x = coord.x as usize;
            if !self.grid[y][x].occupied {
                let row: &mut Vec<BlockBase> = &mut self.grid[y];
                row[x].occupied = true;
                return true;
            }
        }
        false
    }

    /// Frees the block at an in-bounds coordinate.
    pub fn release_block(&mut self, coord: &Coord)
        requires
            old(self).wf(),
        ensures
            final(self).wf(),
            final(self).height == old(self).height,
            final(self).width == old(self).width,
            !old(self).in_bounds_spec(*coord) ==> *final(self) == *old(self),
            old(self).in_bounds_spec(*coord) ==> {
                &&& final(self).grid@[coord.y as int]@ == old(self).grid@[coord.y as int]@.update(
                    coord.x as int,
                    (BlockBase { occupied: false, ..old(self).block_spec(*coord) }),
                )
                &&& forall|y: int|
                    0 <= y < old(self).grid@.len() && y != coord.y ==> final(self).grid@[y] == old(
                        self,
                    ).grid@[y]
            },
    {
        if coord.x >= 0 && coord.y >= 0 && (coord.y as usize) < self.height && (coord.x as usize)
            < self.width {
            let y = coord.y as usize;
            let x = coord.x as usize;
            let row: &mut Vec<BlockBase> = &mut self.grid[y];
            row[x].occupied = false;
        }
    }

    pub open spec fn xy_in_bounds(&self, x: int, y: int) -> bool {
        0 <= x < self.width && 0 <= y < self.height
    }

    /// The in-bounds cells a step right, left, down or up from `c`, in
    /// that order.
    pub open spec fn neighbors_spec(&self, c: Coord) -> Seq<Coord> {
        let s0 = Seq::<Coord>::empty();
        let s1 = if self.xy_in_bounds(c.x + 1, c.y as int) {
            s0.push(Coord { x: (c.x + 1) as i16, y: c.y })
        } else {
            s0
        };
        let s2 = if self.xy_in_bounds(c.x - 1, c.y as int) {
            s1.push(Coord { x: (c.x - 1) as i16, y: c.y })
        } else {
            s1
        };
        let s3 = if self.xy_in_bounds(c.x as int, c.y + 1) {
            s2.push(Coord { x: c.x, y: (c.y + 1) as i16 })
        } else {
            s2
        };
        if self.xy_in_bounds(c.x as int, c.y - 1) {
            s3.push(Coord { x: c.x, y: (c.y - 1) as i16 })
        } else {
            s3
        }
    }

    pub fn neighbors(&self, c: &Coord) -> (r: Vec<Coord>)
        requires
            self.wf(),
        ensures
            r@ == self.neighbors_spec(*c),
            forall|i: int|
                0 <= i < r@.len() ==> self.in_bounds_spec(#[trigger] r@[i]) && adjacent(*c, r@[i]),
    {
        let x = c.x as i32;
        let y = c.y as i32;
        let w = self.width as i32;
        let h = self.height as i32;
        let mut v: Vec<Coord> = Vec::new();
        if 0 <= x + 1 && x + 1 < w && 0 <= y && y < h {
            v.push(Coord::new((x + 1) as i16, c.y));
        }
        if 0 <= x - 1 && x - 1 < w && 0 <= y && y < h {
            v.push(Coord::new((x - 1) as i16, c.y));
        }
        if 0 <= x && x < w && 0 <= y + 1 && y + 1 < h {
            v.push(Coord::new(c.x, (y + 1) as i16));
        }
        if 0 <= x && x < w && 0 <= y - 1 && y - 1 < h {
            v.push(Coord::new(c.x, (y - 1) as i16));
        }
        proof {
            assert(v@ =~= self.neighbors_spec(*c));
        }
        v
    }

    /// Whether the given vehicle may drive onto the cell.
    pub fn is_traversable_for(&self, coord: &Coord, vt: VehicleType) -> (r: bool)
        requires
            self.wf(),
        ensures
            r == (self.in_bounds_spec(*coord) && traversable_spec(
                self.block_spec(*coord).block_type,
                vt,
            )),
    {
        match self.get_block(coord) {
            Some(b) => {
                match (b.block_type, vt) {
                    (BlockType::Water, VehicleType::Ship) => true,
                    (BlockType::Dock, VehicleType::Ship) => true,
                    (BlockType::Bridge, _) => true,
                    (BlockType::Road, VehicleType::Car) => true,
                    (BlockType::Road, VehicleType::Ambulance) => true,
                    (BlockType::Road, VehicleType::Truck) => true,
                    (BlockType::Shops, VehicleType::Car) => true,
                    (BlockType::Shops, VehicleType::Ambulance) => true,
                    (BlockType::NuclearPlant, VehicleType::Truck) => true,
                    _ => false,
                }
            },
            None => false,
        }
    }
}


/// How many cells of the search table are still unvisited.
pub open spec fn count_unmarked(s: Seq<Option<Coord>>) -> int
    decreases s.len(),
{
    if s.len() == 0 {
        0
    } else {
        (if s[0] is None {
            1int
        } else {
            0int
        }) + count_unmarked(s.drop_first())
    }
}

proof fn lemma_unmarked_nonneg(s: Seq<Option<Coord>>)
    ensures
        count_unmarked(s) >= 0,
    decreases s.len(),
{
    if s.len() > 0 {
        lemma_unmarked_nonneg(s.drop_first());
    }
}

/// Marking one unvisited cell lowers the unvisited count by one.
proof fn lemma_unmarked_update(s: Seq<Option<Coord>>, i: int, v: Option<Coord>)
    requires
        0 <= i < s.len(),
    ensures
        count_unmarked(s.update(i, v)) == count_unmarked(s) + (
        if v is None {
            1int
        } else {
            0int
        }) - (
        if s[i] is None {
            1int
        } else {
            0int
        }),
    decreases i,
{
    let u = s.update(i, v);
    if i == 0 {
        assert(u.drop_first() =~= s.drop_first());
    } else {
        assert(u.drop_first() =~= s.drop_first().update(i - 1, v));
        lemma_unmarked_update(s.drop_first(), i - 1, v);
    }
}

impl CityMap {
    /// The flat search-table slot of an in-bounds coordinate.
    pub open spec fn cell_index_spec(&self, c: Coord) -> int {
        c.y * self.width + c.x
    }

    /// The cell living at flat search-table slot `i`.
    pub open spec fn coord_of_cell(&self, i: int) -> Coord {
        Coord { x: (i % (self.width as int)) as i16, y: (i / (self.width as int)) as i16 }
    }

    /// Whether the search table has visited `c`.
    pub open spec fn cell_marked(&self, prev: Seq<Option<Coord>>, c: Coord) -> bool {
        prev[self.cell_index_spec(c)] is Some
    }

    /// Whether some queue entry stands on slot `i`.
    pub open spec fn cell_queued(&self, q: Seq<Coord>, i: int) -> bool {
        exists|k: int| 0 <= k < q.len() && self.cell_index_spec(#[trigger] q[k]) == i
    }

    /// Every traversable neighbour of `c` has been visited.
    pub open spec fn neighbors_done(
        &self,
        prev: Seq<Option<Coord>>,
        c: Coord,
        vt: VehicleType,
    ) -> bool {
        forall|k: int|
            0 <= k < self.neighbors_spec(c).len() ==> (traversable_spec(
                self.block_spec(#[trigger] self.neighbors_spec(c)[k]).block_type,
                vt,
            ) ==> self.cell_marked(prev, self.neighbors_spec(c)[k]))
    }

    /// Every visited cell that has left the queue has already offered
    /// all of its traversable neighbours to the search.
    pub open spec fn frontier_closed(
        &self,
        prev: Seq<Option<Coord>>,
        q: Seq<Coord>,
        vt: VehicleType,
    ) -> bool {
        forall|i: int|
            0 <= i < prev.len() && (#[trigger] prev[i]) is Some && !self.cell_queued(q, i)
                ==> self.neighbors_done(prev, self.coord_of_cell(i), vt)
    }

    /// Discovery ranks: every visited slot's rank is below the number
    /// of visited slots, and every visited non-origin slot was
    /// discovered strictly after its predecessor. This makes the
    /// predecessor chains acyclic.
    pub open spec fn ranks_ok(
        &self,
        prev: Seq<Option<Coord>>,
        ranks: Seq<int>,
        origin: Coord,
    ) -> bool {
        &&& ranks.len() == prev.len()
        &&& forall|i: int|
            0 <= i < prev.len() ==> match #[trigger] prev[i] {
                Some(p) => {
                    &&& 0 <= ranks[i] < prev.len() - count_unmarked(prev)
                    &&& (i != self.cell_index_spec(origin) ==> ranks[self.cell_index_spec(p)]
                        < ranks[i])
                },
                None => true,
            }
    }

    /// A coordinate sequence that carries `vt` from `origin` to `dest`:
    /// it starts at the origin, ends at the destination, advances one
    /// orthogonal step at a time, and stays on in-bounds cells the
    /// vehicle may traverse (the origin cell itself is not checked).
    pub open spec fn valid_route(
        &self,
        origin: Coord,
        dest: Coord,
        vt: VehicleType,
        p: Seq<Coord>,
    ) -> bool {
        &&& p.len() >= 1
        &&& p[0] == origin
        &&& p[p.len() - 1] == dest
        &&& forall|i: int| 0 <= i < p.len() - 1 ==> adjacent(p[i], #[trigger] p[i + 1])
        &&& forall|i: int|
            1 <= i < p.len() ==> self.in_bounds_spec(#[trigger] p[i]) && traversable_spec(
                self.block_spec(p[i]).block_type,
                vt,
            )
    }

    /// Every visited slot of the search table records a valid step: the
    /// origin points at itself, and any other slot points at a visited,
    /// adjacent, in-bounds cell, with the slot's own cell traversable.
    pub open spec fn search_ok(
        &self,
        s: Seq<Option<Coord>>,
        origin: Coord,
        vt: VehicleType,
    ) -> bool {
        forall|i: int|
            0 <= i < s.len() ==> match #[trigger] s[i] {
                Some(p) => {
                    ||| (i == self.cell_index_spec(origin) && p == origin)
                    ||| {
                        let c = Coord {
                            x: (i % (self.width as int)) as i16,
                            y: (i / (self.width as int)) as i16,
                        };
                        &&& self.in_bounds_spec(p)
                        &&& self.in_bounds_spec(c)
                        &&& adjacent(p, c)
                        &&& traversable_spec(self.block_spec(c).block_type, vt)
                        &&& 0 <= self.cell_index_spec(p) < s.len()
                        &&& s[self.cell_index_spec(p)] is Some
                    }
                },
                None => true,
            }
    }

    /// Computes the flat slot of an in-bounds coordinate.
    fn cell_index(&self, c: Coord) -> (r: usize)
        requires
            self.wf(),
            self.in_bounds_spec(c),
        ensures
            r == self.cell_index_spec(c),
            r < self.height * self.width,
    {
        proof {
            assert(c.y * self.width + c.x < self.height * self.width) by (nonlinear_arith)
                requires
                    0 <= c.x < self.width,
                    0 <= c.y < self.height,
            ;
            assert(self.height * self.width <= 0x7fff * 0x7fff) by (nonlinear_arith)
                requires
                    self.height <= 0x7fff,
                    self.width <= 0x7fff,
            ;
        }
        (c.y as usize) * self.width + (c.x as usize)
    }

    /// Breadth-first route from `origin` to `dest` over cells the
    /// vehicle may traverse (the origin cell itself is not checked).
    /// Finds a route exactly when one exists: a returned path is a
    /// valid route, and nothing is returned only when no coordinate
    /// sequence at all carries the vehicle from origin to destination.
    #[verifier::rlimit(100)]
    #[verifier::spinoff_prover]
    pub fn shortest_path(&self, origin: Coord, dest: Coord, vt: VehicleType) -> (r: Option<
        Vec<Coord>,
    >)
        requires
            self.wf(),
            self.in_bounds_spec(origin),
            self.in_bounds_spec(dest),
        ensures
            r matches Some(path) ==> self.valid_route(origin, dest, vt, path@),
            r is None ==> forall|p: Seq<Coord>| !self.valid_route(origin, dest, vt, p),
    {
        let h = self.height;
        let w = self.width;
        proof {
            assert(h * w <= 0x7fff * 0x7fff) by (nonlinear_arith)
                requires
                    h <= 0x7fff,
                    w <= 0x7fff,
            ;
        }
        let total = h * w;
        let mut prev: Vec<Option<Coord>> = Vec::new();
        let mut k: usize = 0;
        while k < total
            invariant
                k <= total,
                prev@.len() == k,
                forall|i: int| 0 <= i < k ==> (#[trigger] prev@[i]) is None,
            decreases total - k,
        {
            prev.push(None);
            k = k + 1;
        }
        proof {
            lemma_all_none_unmarked(prev@);
        }
        let ghost p_init = prev@;
        let oi = self.cell_index(origin);
        prev[oi] = Some(origin);
        let ghost mut ranks: Seq<int> = Seq::new((h * w) as nat, |_i: int| 0int);
        proof {
            lemma_unmarked_update(p_init, oi as int, Some(origin));
        }
        let mut q: VecDeque<Coord> = VecDeque::new();
        q.push_back(origin);
        let mut found = false;
        proof {
            assert(q@[0] == origin);
            assert(self.cell_queued(q@, oi as int));
            assert forall|i: int|
                0 <= i < prev@.len() && (#[trigger] prev@[i]) is Some && !self.cell_queued(
                    q@,
                    i,
                ) implies self.neighbors_done(prev@, self.coord_of_cell(i), vt) by {
                if i != oi {
                    assert(prev@[i] == p_init[i]);
                    assert(p_init[i] is None);
                }
            }
        }
        while q.len() != 0 && !found
            invariant
                self.wf(),
                self.in_bounds_spec(origin),
                self.in_bounds_spec(dest),
                h == self.height,
                w == self.width,
                prev@.len() == h * w,
                ranks.len() == h * w,
                self.search_ok(prev@, origin, vt),
                self.ranks_ok(prev@, ranks, origin),
                self.cell_marked(prev@, origin),
                forall|i: int|
                    0 <= i < q@.len() ==> {
                        &&& self.in_bounds_spec(#[trigger] q@[i])
                        &&& 0 <= self.cell_index_spec(q@[i]) < prev@.len()
                        &&& prev@[self.cell_index_spec(q@[i])] is Some
                    },
                !found ==> self.frontier_closed(prev@, q@, vt),
                found ==> self.cell_marked(prev@, dest),
            decreases count_unmarked(prev@), q@.len(),
        {
            proof {
                lemma_unmarked_nonneg(prev@);
            }
            let ghost unmarked0 = count_unmarked(prev@);
            let ghost qlen0 = q@.len();
            let ghost qpre = q@;
            let u = match q.pop_front() {
                Some(u) => u,
                None => {
                    proof {
                        assert(false);
                    }
                    return None;
                },
            };
            if u.x == dest.x && u.y == dest.y {
                found = true;
                proof {
                    assert(u == dest);
                    assert(self.cell_index_spec(qpre[0]) == self.cell_index_spec(u));
                }
            } else {
                let ns = self.neighbors(&u);
                let ui = self.cell_index(u);
                proof {
                    // After the pop, only the popped cell itself may
                    // have lost its last queue slot.
                    assert forall|i: int|
                        0 <= i < prev@.len() && (#[trigger] prev@[i]) is Some && i != ui
                            && !self.cell_queued(q@, i) implies self.neighbors_done(
                        prev@,
                        self.coord_of_cell(i),
                        vt,
                    ) by {
                        if self.cell_queued(qpre, i) {
                            let k = choose|k: int|
                                0 <= k < qpre.len() && self.cell_index_spec(#[trigger] qpre[k])
                                    == i;
                            assert(qpre[0] == u);
                            if k == 0 {
                                assert(i == ui);
                            } else {
                                assert(q@[k - 1] == qpre[k]);
                                assert(self.cell_queued(q@, i));
                            }
                        }
                    }
                }
                let mut j: usize = 0;
                while j < ns.len()
                    invariant
                        self.wf(),
                        self.in_bounds_spec(origin),
                        self.in_bounds_spec(u),
                        h == self.height,
                        w == self.width,
                        prev@.len() == h * w,
                        ranks.len() == h * w,
                        ui == self.cell_index_spec(u),
                        ui < prev@.len(),
                        prev@[ui as int] is Some,
                        self.search_ok(prev@, origin, vt),
                        self.ranks_ok(prev@, ranks, origin),
                        self.cell_marked(prev@, origin),
                        forall|i: int|
                            0 <= i < q@.len() ==> {
                                &&& self.in_bounds_spec(#[trigger] q@[i])
                                &&& 0 <= self.cell_index_spec(q@[i]) < prev@.len()
                                &&& prev@[self.cell_index_spec(q@[i])] is Some
                            },
                        forall|i: int|
                            0 <= i < ns@.len() ==> self.in_bounds_spec(#[trigger] ns@[i])
                                && adjacent(u, ns@[i]),
                        ns@ == self.neighbors_spec(u),
                        j <= ns@.len(),
                        count_unmarked(prev@) <= unmarked0,
                        count_unmarked(prev@) + q@.len() <= unmarked0 + qlen0 - 1,
                        forall|i: int|
                            0 <= i < prev@.len() && (#[trigger] prev@[i]) is Some && i != ui
                                && !self.cell_queued(q@, i) ==> self.neighbors_done(
                                prev@,
                                self.coord_of_cell(i),
                                vt,
                            ),
                        forall|k: int|
                            0 <= k < j ==> (traversable_spec(
                                self.block_spec(#[trigger] ns@[k]).block_type,
                                vt,
                            ) ==> self.cell_marked(prev@, ns@[k])),
                    decreases ns@.len() - j,
                {
                    let v = ns[j];
                    let trav = self.is_traversable_for(&v, vt);
                    if trav {
                        let vi = self.cell_index(v);
                        if matches!(prev[vi], None) {
                            let ghost p0 = prev@;
                            let ghost q0 = q@;
                            let ghost r0 = ranks;
                            prev[vi] = Some(u);
                            q.push_back(v);
                            proof {
                                ranks = ranks.update(vi as int, p0.len() - count_unmarked(p0));
                                assert(prev@ == p0.update(vi as int, Some(u)));
                                assert(q@ == q0.push(v));
                                assert(adjacent(u, ns@[j as int]));
                                lemma_unmarked_update(p0, vi as int, Some(u));
                                lemma_mark_preserves(
                                    self,
                                    origin,
                                    vt,
                                    u,
                                    v,
                                    p0,
                                    q0,
                                    r0,
                                    ui as int,
                                    vi as int,
                                );
                                lemma_cell_slot_bound(self, origin);
                                assert(self.cell_marked(prev@, origin));
                                assert(self.cell_marked(prev@, ns@[j as int]));
                                assert forall|k: int|
                                    0 <= k < j + 1 implies (traversable_spec(
                                    self.block_spec(#[trigger] ns@[k]).block_type,
                                    vt,
                                ) ==> self.cell_marked(prev@, ns@[k])) by {
                                    if k < j {
                                        lemma_cell_slot_bound(self, ns@[k]);
                                    }
                                }
                            }
                        } else {
                            proof {
                                assert(self.cell_marked(prev@, ns@[j as int]));
                            }
                        }
                    } else {
                        proof {
                            assert(self.in_bounds_spec(ns@[j as int]));
                            assert(!traversable_spec(
                                self.block_spec(ns@[j as int]).block_type,
                                vt,
                            ));
                        }
                    }
                    j = j + 1;
                }
                proof {
                    lemma_unmarked_nonneg(prev@);
                    // the popped cell has now offered all its
                    // traversable neighbours: the frontier is closed
                    assert(u == (Coord {
                        x: ((ui as int) % (self.width as int)) as i16,
                        y: ((ui as int) / (self.width as int)) as i16,
                    })) by (nonlinear_arith)
                        requires
                            ui == u.y * (self.width as int) + u.x,
                            0 <= u.x < self.width as int,
                            0 <= u.y,
                            self.width as int > 0,
                    ;
                    assert(self.coord_of_cell(ui as int) == u);
                    assert forall|i: int|
                        0 <= i < prev@.len() && (#[trigger] prev@[i]) is Some && !self.cell_queued(
                            q@,
                            i,
                        ) implies self.neighbors_done(prev@, self.coord_of_cell(i), vt) by {
                        if i == ui {
                            assert(self.neighbors_done(prev@, u, vt));
                        }
                    }
                }
            }
        }
        let di = self.cell_index(dest);
        let dp = prev[di];
        if matches!(dp, None) {
            proof {
                // The search ended with an empty queue and an unvisited
                // destination: a closed frontier covers every cell any
                // traversable route can reach, so no route exists.
                assert(!found);
                assert(q@.len() == 0);
                assert forall|p: Seq<Coord>| !self.valid_route(origin, dest, vt, p) by {
                    if self.valid_route(origin, dest, vt, p) {
                        lemma_route_all_marked(self, prev@, q@, origin, dest, vt, p, p.len() - 1);
                        assert(self.cell_marked(prev@, dest));
                    }
                }
            }
            return None;
        }
        proof {
            assert(prev@[di as int] is Some);
            assert(self.cell_marked(prev@, dest));
        }
        let path = self.reconstruct_route(&prev, Ghost(ranks), origin, dest, vt);
        Some(path)
    }

    /// Walks the finished search table backwards from the visited
    /// destination and hands back the forward route.
    #[verifier::rlimit(100)]
    #[verifier::spinoff_prover]
    fn reconstruct_route(
        &self,
        prev: &Vec<Option<Coord>>,
        Ghost(ranks): Ghost<Seq<int>>,
        origin: Coord,
        dest: Coord,
        vt: VehicleType,
    ) -> (r: Vec<Coord>)
        requires
            self.wf(),
            self.in_bounds_spec(origin),
            self.in_bounds_spec(dest),
            prev@.len() == self.height * self.width,
            ranks.len() == prev@.len(),
            self.search_ok(prev@, origin, vt),
            self.ranks_ok(prev@, ranks, origin),
            self.cell_marked(prev@, dest),
        ensures
            self.valid_route(origin, dest, vt, r@),
    {
        let h = self.height;
        let w = self.width;
        proof {
            assert(h * w <= 0x7fff * 0x7fff) by (nonlinear_arith)
                requires
                    h <= 0x7fff,
                    w <= 0x7fff,
            ;
        }
        let total = h * w;
        let di = self.cell_index(dest);
        proof {
            lemma_unmarked_nonneg(prev@);
            assert(prev@[di as int] is Some);
            assert(0 <= ranks[di as int] < h * w);
            // the destination slot is either the origin's own slot or a
            // slot whose cell the vehicle may traverse
            if di as int != self.cell_index_spec(origin) {
                assert(dest == (Coord {
                    x: ((di as int) % (w as int)) as i16,
                    y: ((di as int) / (w as int)) as i16,
                })) by (nonlinear_arith)
                    requires
                        di == dest.y * w + dest.x,
                        0 <= dest.x < w,
                        0 <= dest.y,
                        w > 0,
                ;
            } else {
                lemma_cell_index_injective(self.width as int, dest, origin);
            }
        }
        // The search table is acyclic (ranks fall along predecessor
        // chains), so the walk never runs past the cell count.
        let mut rev: Vec<Coord> = Vec::new();
        rev.push(dest);
        let mut cur = dest;
        let mut fuel = total;
        while !(cur.x == origin.x && cur.y == origin.y)
            invariant
                self.wf(),
                self.in_bounds_spec(origin),
                self.in_bounds_spec(dest),
                h == self.height,
                w == self.width,
                prev@.len() == h * w,
                self.search_ok(prev@, origin, vt),
                rev@.len() >= 1,
                rev@[0] == dest,
                rev@[rev@.len() - 1] == cur,
                self.in_bounds_spec(cur),
                0 <= self.cell_index_spec(cur) < prev@.len(),
                prev@[self.cell_index_spec(cur)] is Some,
                forall|i: int|
                    0 <= i < rev@.len() - 1 ==> adjacent(#[trigger] rev@[i + 1], rev@[i]),
                forall|i: int|
                    0 <= i < rev@.len() ==> (rev@[i] == origin || (self.in_bounds_spec(
                        #[trigger] rev@[i],
                    ) && traversable_spec(self.block_spec(rev@[i]).block_type, vt))),
                forall|i: int| 0 <= i < rev@.len() ==> self.in_bounds_spec(#[trigger] rev@[i]),
                forall|i: int| 0 <= i < rev@.len() - 1 ==> (#[trigger] rev@[i]) != origin,
                ranks.len() == h * w,
                self.ranks_ok(prev@, ranks, origin),
                fuel >= ranks[self.cell_index_spec(cur)],
            decreases fuel,
        {
            let ci = self.cell_index(cur);
            let step = match prev[ci] {
                Some(p) => p,
                None => {
                    proof {
                        assert(false);
                    }
                    return rev;
                },
            };
            proof {
                assert(prev@[ci as int] == Some(step));
                if ci as int == self.cell_index_spec(origin) {
                    lemma_cell_index_injective(self.width as int, cur, origin);
                    assert(false);
                }
                assert(cur == (Coord {
                    x: ((ci as int) % (w as int)) as i16,
                    y: ((ci as int) / (w as int)) as i16,
                })) by (nonlinear_arith)
                    requires
                        ci == cur.y * w + cur.x,
                        0 <= cur.x < w,
                        0 <= cur.y,
                        w > 0,
                ;
                // the predecessor is itself visited, in bounds and
                // adjacent; it is the origin or a traversable cell
                assert(self.in_bounds_spec(step));
                assert(adjacent(step, cur));
                let si = self.cell_index_spec(step);
                assert(prev@[si] is Some);
                if si == self.cell_index_spec(origin) {
                    lemma_cell_index_injective(self.width as int, step, origin);
                } else {
                    assert(step == (Coord {
                        x: (si % (w as int)) as i16,
                        y: (si / (w as int)) as i16,
                    })) by (nonlinear_arith)
                        requires
                            si == step.y * w + step.x,
                            0 <= step.x < w,
                            0 <= step.y,
                            w > 0,
                    ;
                }
                // the predecessor was discovered strictly earlier, so
                // the remaining fuel always covers the rest of the walk
                assert(ranks[si] < ranks[ci as int]);
                assert(ranks[si] >= 0);
            }
            if fuel == 0 {
                proof {
                    assert(false);
                }
                return rev;
            }
            fuel = fuel - 1;
            rev.push(step);
            cur = step;
        }
        let n = rev.len();
        let mut path: Vec<Coord> = Vec::new();
        let mut t: usize = 0;
        while t < n
            invariant
                n == rev@.len(),
                t <= n,
                path@.len() == t,
                forall|i: int| 0 <= i < t ==> #[trigger] path@[i] == rev@[n - 1 - i],
            decreases n - t,
        {
            path.push(rev[n - 1 - t]);
            t = t + 1;
        }
        proof {
            assert(path@[0] == rev@[n - 1]);
            assert(path@[n - 1] == rev@[0]);
            assert forall|i: int| 0 <= i < path@.len() - 1 implies adjacent(
                path@[i],
                #[trigger] path@[i + 1],
            ) by {
                assert(path@[i] == rev@[n - 1 - i]);
                assert(path@[i + 1] == rev@[n - 1 - (i + 1)]);
                assert(adjacent(rev@[(n - 2 - i) + 1], rev@[n - 2 - i]));
            }
            assert forall|i: int| 1 <= i < path@.len() implies self.in_bounds_spec(
                #[trigger] path@[i],
            ) && traversable_spec(self.block_spec(path@[i]).block_type, vt) by {
                assert(path@[i] == rev@[n - 1 - i]);
                assert(rev@[n - 1 - i] != origin);
            }
        }
        path
    }
}

/// Two in-bounds coordinates sharing a flat slot are the same cell.
proof fn lemma_cell_index_injective(w: int, a: Coord, b: Coord)
    requires
        w > 0,
        0 <= a.x < w,
        0 <= b.x < w,
        0 <= a.y,
        0 <= b.y,
        a.y * w + a.x == b.y * w + b.x,
    ensures
        a == b,
{
    assert(a.y == b.y && a.x == b.x) by (nonlinear_arith)
        requires
            w > 0,
            0 <= a.x < w,
            0 <= b.x < w,
            0 <= a.y,
            0 <= b.y,
            a.y * w + a.x == b.y * w + b.x,
    ;
}

/// A table of fresh slots is wholly unvisited.
proof fn lemma_all_none_unmarked(s: Seq<Option<Coord>>)
    requires
        forall|i: int| 0 <= i < s.len() ==> (#[trigger] s[i]) is None,
    ensures
        count_unmarked(s) == s.len(),
    decreases s.len(),
{
    if s.len() > 0 {
        let t = s.drop_first();
        assert forall|i: int| 0 <= i < t.len() implies (#[trigger] t[i]) is None by {
            assert(t[i] == s[i + 1]);
        }
        lemma_all_none_unmarked(t);
    }
}


/// Every listed neighbour is in bounds.
proof fn lemma_neighbors_in_bounds(m: &CityMap, c: Coord)
    requires
        m.wf(),
    ensures
        forall|k: int|
            0 <= k < m.neighbors_spec(c).len() ==> m.in_bounds_spec(
                #[trigger] m.neighbors_spec(c)[k],
            ),
{
    let s0 = Seq::<Coord>::empty();
    let s1 = if m.xy_in_bounds(c.x + 1, c.y as int) {
        s0.push(Coord { x: (c.x + 1) as i16, y: c.y })
    } else {
        s0
    };
    let s2 = if m.xy_in_bounds(c.x - 1, c.y as int) {
        s1.push(Coord { x: (c.x - 1) as i16, y: c.y })
    } else {
        s1
    };
    let s3 = if m.xy_in_bounds(c.x as int, c.y + 1) {
        s2.push(Coord { x: c.x, y: (c.y + 1) as i16 })
    } else {
        s2
    };
    let s4 = if m.xy_in_bounds(c.x as int, c.y - 1) {
        s3.push(Coord { x: c.x, y: (c.y - 1) as i16 })
    } else {
        s3
    };
    assert(m.neighbors_spec(c) == s4);
    assert forall|k: int| 0 <= k < s4.len() implies m.in_bounds_spec(#[trigger] s4[k]) by {
        if k < s3.len() {
            assert(s4[k] == s3[k]);
        }
        if k < s2.len() {
            assert(s3[k] == s2[k]);
        }
        if k < s1.len() {
            assert(s2[k] == s1[k]);
        }
    }
}

/// An in-bounds cell one step from `a` is among `a`'s neighbours.
proof fn lemma_neighbors_complete(m: &CityMap, a: Coord, b: Coord)
    requires
        m.in_bounds_spec(b),
        adjacent(a, b),
    ensures
        m.neighbors_spec(a).contains(b),
{
    let s0 = Seq::<Coord>::empty();
    let s1 = if m.xy_in_bounds(a.x + 1, a.y as int) {
        s0.push(Coord { x: (a.x + 1) as i16, y: a.y })
    } else {
        s0
    };
    let s2 = if m.xy_in_bounds(a.x - 1, a.y as int) {
        s1.push(Coord { x: (a.x - 1) as i16, y: a.y })
    } else {
        s1
    };
    let s3 = if m.xy_in_bounds(a.x as int, a.y + 1) {
        s2.push(Coord { x: a.x, y: (a.y + 1) as i16 })
    } else {
        s2
    };
    let s4 = if m.xy_in_bounds(a.x as int, a.y - 1) {
        s3.push(Coord { x: a.x, y: (a.y - 1) as i16 })
    } else {
        s3
    };
    assert(m.neighbors_spec(a) == s4);
    if a.y == b.y && b.x == a.x + 1 {
        assert(m.xy_in_bounds(a.x + 1, a.y as int));
        assert(s1[s0.len() as int] == b);
        assert(s4[s0.len() as int] == b);
    } else if a.y == b.y && b.x == a.x - 1 {
        assert(m.xy_in_bounds(a.x - 1, a.y as int));
        assert(s2[s1.len() as int] == b);
        assert(s4[s1.len() as int] == b);
    } else if a.x == b.x && b.y == a.y + 1 {
        assert(m.xy_in_bounds(a.x as int, a.y + 1));
        assert(s3[s2.len() as int] == b);
        assert(s4[s2.len() as int] == b);
    } else {
        assert(a.x == b.x && b.y == a.y - 1);
        assert(m.xy_in_bounds(a.x as int, a.y - 1));
        assert(s4[s3.len() as int] == b);
    }
}

/// With the frontier closed and the queue drained, every cell of a
/// traversable route from a visited origin has been visited.
proof fn lemma_route_all_marked(
    m: &CityMap,
    prev: Seq<Option<Coord>>,
    qe: Seq<Coord>,
    origin: Coord,
    dest: Coord,
    vt: VehicleType,
    p: Seq<Coord>,
    j: int,
)
    requires
        m.wf(),
        m.in_bounds_spec(origin),
        prev.len() == m.height * m.width,
        qe.len() == 0,
        m.frontier_closed(prev, qe, vt),
        m.cell_marked(prev, origin),
        m.valid_route(origin, dest, vt, p),
        0 <= j < p.len(),
    ensures
        m.cell_marked(prev, p[j]),
    decreases j,
{
    if j > 0 {
        lemma_route_all_marked(m, prev, qe, origin, dest, vt, p, j - 1);
        let c = p[j - 1];
        let i = m.cell_index_spec(c);
        assert(m.in_bounds_spec(c));
        assert(0 <= i < prev.len()) by (nonlinear_arith)
            requires
                0 <= c.x < m.width,
                0 <= c.y < m.height,
                i == c.y * m.width + c.x,
                prev.len() == m.height * m.width,
        ;
        assert(prev[i] is Some);
        assert(!m.cell_queued(qe, i));
        assert(m.neighbors_done(prev, m.coord_of_cell(i), vt));
        assert(m.coord_of_cell(i) == c) by (nonlinear_arith)
            requires
                i == c.y * m.width + c.x,
                0 <= c.x < m.width,
                0 <= c.y,
                m.width > 0,
        ;
        assert(adjacent(p[j - 1], p[(j - 1) + 1]));
        lemma_neighbors_complete(m, c, p[j]);
        let k = choose|k: int|
            0 <= k < m.neighbors_spec(c).len() && m.neighbors_spec(c)[k] == p[j];
        assert(traversable_spec(m.block_spec(m.neighbors_spec(c)[k]).block_type, vt));
        assert(m.cell_marked(prev, m.neighbors_spec(c)[k]));
    }
}


/// The flat slot of an in-bounds cell lies inside the search table.
proof fn lemma_cell_slot_bound(m: &CityMap, c: Coord)
    requires
        m.wf(),
        m.in_bounds_spec(c),
    ensures
        0 <= m.cell_index_spec(c) < m.height * m.width,
{
    assert(0 <= c.y * m.width + c.x < m.height * m.width) by (nonlinear_arith)
        requires
            0 <= c.x < m.width,
            0 <= c.y < m.height,
    ;
}

/// Discovering `v` from the popped cell `u` preserves every search
/// invariant: the step records stay valid, ranks stay strictly
/// increasing along predecessor chains, the queue keeps holding only
/// visited cells, and every processed cell other than `u` stays fully
/// offered.
#[verifier::rlimit(100)]
#[verifier::spinoff_prover]
proof fn lemma_mark_preserves(
    m: &CityMap,
    origin: Coord,
    vt: VehicleType,
    u: Coord,
    v: Coord,
    p0: Seq<Option<Coord>>,
    q0: Seq<Coord>,
    r0: Seq<int>,
    ui: int,
    vi: int,
)
    requires
        m.wf(),
        p0.len() == m.height * m.width,
        r0.len() == p0.len(),
        m.in_bounds_spec(origin),
        m.in_bounds_spec(u),
        m.in_bounds_spec(v),
        ui == m.cell_index_spec(u),
        vi == m.cell_index_spec(v),
        0 <= ui < p0.len(),
        0 <= vi < p0.len(),
        p0[ui] is Some,
        p0[vi] is None,
        m.search_ok(p0, origin, vt),
        m.ranks_ok(p0, r0, origin),
        adjacent(u, v),
        traversable_spec(m.block_spec(v).block_type, vt),
        forall|i: int|
            0 <= i < q0.len() ==> {
                &&& m.in_bounds_spec(#[trigger] q0[i])
                &&& 0 <= m.cell_index_spec(q0[i]) < p0.len()
                &&& p0[m.cell_index_spec(q0[i])] is Some
            },
        forall|i: int|
            0 <= i < p0.len() && (#[trigger] p0[i]) is Some && i != ui && !m.cell_queued(q0, i)
                ==> m.neighbors_done(p0, m.coord_of_cell(i), vt),
    ensures
        m.search_ok(p0.update(vi, Some(u)), origin, vt),
        m.ranks_ok(
            p0.update(vi, Some(u)),
            r0.update(vi, p0.len() - count_unmarked(p0)),
            origin,
        ),
        forall|i: int|
            0 <= i < q0.push(v).len() ==> {
                &&& m.in_bounds_spec(#[trigger] q0.push(v)[i])
                &&& 0 <= m.cell_index_spec(q0.push(v)[i]) < p0.update(vi, Some(u)).len()
                &&& p0.update(vi, Some(u))[m.cell_index_spec(q0.push(v)[i])] is Some
            },
        forall|i: int|
            0 <= i < p0.update(vi, Some(u)).len() && (#[trigger] p0.update(vi, Some(u))[i])
                is Some && i != ui && !m.cell_queued(q0.push(v), i) ==> m.neighbors_done(
                p0.update(vi, Some(u)),
                m.coord_of_cell(i),
                vt,
            ),
        count_unmarked(p0.update(vi, Some(u))) == count_unmarked(p0) - 1,
        m.cell_marked(p0.update(vi, Some(u)), v),
        forall|c: Coord|
            0 <= m.cell_index_spec(c) < p0.len() && #[trigger] m.cell_marked(p0, c)
                ==> m.cell_marked(p0.update(vi, Some(u)), c),
    decreases 0int,
{
    let w = m.width as int;
    let pnew = p0.update(vi, Some(u));
    let qnew = q0.push(v);
    let rnew = r0.update(vi, p0.len() - count_unmarked(p0));
    lemma_unmarked_update(p0, vi, Some(u));
    lemma_unmarked_nonneg(p0);
    assert(v == (Coord { x: (vi % w) as i16, y: (vi / w) as i16 })) by (nonlinear_arith)
        requires
            vi == v.y * w + v.x,
            0 <= v.x < w,
            0 <= v.y,
            w > 0,
    ;
    assert forall|i: int| 0 <= i < pnew.len() implies match #[trigger] pnew[i] {
        Some(p) => {
            ||| (i == m.cell_index_spec(origin) && p == origin)
            ||| {
                let c = Coord { x: (i % (m.width as int)) as i16, y: (i / (m.width as int)) as i16 };
                &&& m.in_bounds_spec(p)
                &&& m.in_bounds_spec(c)
                &&& adjacent(p, c)
                &&& traversable_spec(m.block_spec(c).block_type, vt)
                &&& 0 <= m.cell_index_spec(p) < pnew.len()
                &&& pnew[m.cell_index_spec(p)] is Some
            }
        },
        None => true,
    } by {
        if i != vi {
            assert(pnew[i] == p0[i]);
            match p0[i] {
                Some(p) => {
                    if !(i == m.cell_index_spec(origin) && p == origin) {
                        assert(p0[m.cell_index_spec(p)] is Some);
                        if m.cell_index_spec(p) != vi {
                            assert(pnew[m.cell_index_spec(p)] == p0[m.cell_index_spec(p)]);
                        }
                    }
                },
                None => {},
            }
        } else {
            assert(pnew[vi] == Some(u));
            assert(pnew[ui] == p0[ui]);
        }
    }
    assert forall|i: int| 0 <= i < pnew.len() implies match #[trigger] pnew[i] {
        Some(p) => {
            &&& 0 <= rnew[i] < pnew.len() - count_unmarked(pnew)
            &&& (i != m.cell_index_spec(origin) ==> rnew[m.cell_index_spec(p)] < rnew[i])
        },
        None => true,
    } by {
        if i != vi {
            assert(pnew[i] == p0[i]);
            match p0[i] {
                Some(p) => {
                    assert(rnew[i] == r0[i]);
                    assert(p0[m.cell_index_spec(p)] is Some);
                    assert(m.cell_index_spec(p) != vi);
                    assert(rnew[m.cell_index_spec(p)] == r0[m.cell_index_spec(p)]);
                },
                None => {},
            }
        } else {
            assert(p0[ui] is Some);
            assert(r0[ui] < p0.len() - count_unmarked(p0));
            assert(rnew[ui] == r0[ui]);
            assert(rnew[vi] == p0.len() - count_unmarked(p0));
        }
    }
    assert forall|i: int| 0 <= i < qnew.len() implies {
        &&& m.in_bounds_spec(#[trigger] qnew[i])
        &&& 0 <= m.cell_index_spec(qnew[i]) < pnew.len()
        &&& pnew[m.cell_index_spec(qnew[i])] is Some
    } by {
        if i < q0.len() {
            assert(qnew[i] == q0[i]);
            if m.cell_index_spec(q0[i]) != vi {
                assert(pnew[m.cell_index_spec(q0[i])] == p0[m.cell_index_spec(q0[i])]);
            }
        } else {
            assert(qnew[i] == v);
        }
    }
    assert forall|i: int|
        0 <= i < pnew.len() && (#[trigger] pnew[i]) is Some && i != ui && !m.cell_queued(
            qnew,
            i,
        ) implies m.neighbors_done(pnew, m.coord_of_cell(i), vt) by {
        if i == vi {
            assert(m.cell_index_spec(qnew[qnew.len() - 1]) == i);
            assert(m.cell_queued(qnew, i));
        } else {
            assert(pnew[i] == p0[i]);
            if m.cell_queued(q0, i) {
                let k = choose|k: int|
                    0 <= k < q0.len() && m.cell_index_spec(#[trigger] q0[k]) == i;
                assert(qnew[k] == q0[k]);
                assert(m.cell_queued(qnew, i));
            }
            let c = m.coord_of_cell(i);
            assert(m.neighbors_done(p0, c, vt));
            lemma_neighbors_in_bounds(m, c);
            assert forall|k: int|
                0 <= k < m.neighbors_spec(c).len() implies (traversable_spec(
                m.block_spec(#[trigger] m.neighbors_spec(c)[k]).block_type,
                vt,
            ) ==> m.cell_marked(pnew, m.neighbors_spec(c)[k])) by {
                lemma_cell_slot_bound(m, m.neighbors_spec(c)[k]);
                if m.cell_index_spec(m.neighbors_spec(c)[k]) != vi {
                    assert(pnew[m.cell_index_spec(m.neighbors_spec(c)[k])] == p0[m.cell_index_spec(
                        m.neighbors_spec(c)[k],
                    )]);
                }
            }
        }
    }
    assert forall|c: Coord|
        0 <= m.cell_index_spec(c) < p0.len() && #[trigger] m.cell_marked(p0, c) implies
        m.cell_marked(pnew, c) by {
        if m.cell_index_spec(c) != vi {
            assert(pnew[m.cell_index_spec(c)] == p0[m.cell_index_spec(c)]);
        }
    }
}

} // verus!
