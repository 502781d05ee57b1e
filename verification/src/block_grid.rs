//! A rectangular grid of city blocks addressed by coordinates.

use vstd::prelude::*;
use crate::block::CityBlock;
use crate::block_type::BlockType;
use crate::coord::Coord;
use crate::plant_status::PlantStatus;
use crate::transport_policy::TransportPolicy;
use crate::bridge::BridgeBlock;
use crate::control::Control;
use crate::dock::DockBlock;
use crate::mymutex::MyMutex;
use crate::nuclearplant::NuclearPlantBlock;
use crate::road::RoadBlock;
use crate::shop::Shop;
use crate::shopblock::ShopBlock;
use crate::water::WaterBlock;

verus! {

/// A grid of concrete blocks. Rows all share one width, and both
/// dimensions fit the coordinate type.
pub struct BlockGrid {
    pub grid: Vec<Vec<CityBlock>>,
    pub height: i16,
    pub width: i16,
}

impl BlockGrid {
    /// The dimensions describe the grid and every row has the same
    /// width.
    pub open spec fn wf(&self) -> bool {
        &&& self.height as int == self.grid@.len()
        &&& self.height > 0
        &&& self.width as int == self.grid@[0].len()
        &&& forall|y: int| 0 <= y < self.grid@.len() ==> (#[trigger] self.grid@[y]).len() as int
            == self.width as int
    }

    pub open spec fn in_bounds_spec(&self, c: Coord) -> bool {
        0 <= c.x < self.width && 0 <= c.y < self.height
    }

    /// The block stored at a coordinate (meaningful in bounds).
    pub open spec fn block_spec(&self, c: Coord) -> CityBlock {
        self.grid@[c.y as int][c.x as int]
    }

    /// The status of the plant at a coordinate: present only where an
    /// in-bounds cell holds a nuclear plant.
    pub open spec fn plant_status_spec(&self, c: Coord) -> Option<PlantStatus> {
        if self.in_bounds_spec(c) {
            match self.block_spec(c) {
                CityBlock::NuclearPlant(p) => Some(p.plant_status),
                _ => None,
            }
        } else {
            None
        }
    }

    /// Wraps a non-empty rectangular grid of blocks.
    pub fn build_custom(grid: Vec<Vec<CityBlock>>) -> (r: BlockGrid)
        requires
            grid@.len() > 0,
            grid@.len() <= i16::MAX,
            grid@[0].len() <= i16::MAX,
            forall|y: int| 0 <= y < grid@.len() ==> (#[trigger] grid@[y]).len() == grid@[0].len(),
        ensures
            r.grid == grid,
            r.height as int == grid@.len(),
            r.width as int == grid@[0].len(),
            r.wf(),
    {
        let height = grid.len() as i16;
        let width = grid[0].len() as i16;
        BlockGrid { grid, height, width }
    }

    pub fn in_bounds(&self, coord: Coord) -> (r: bool)
        ensures
            r == self.in_bounds_spec(coord),
    {
        coord.x >= 0 && coord.y >= 0 && coord.x < self.width && coord.y < self.height
    }

    /// Borrows the block at an in-bounds coordinate.
    pub fn block_at(&self, c: Coord) -> (r: Option<&CityBlock>)
        requires
            self.wf(),
        ensures
            self.in_bounds_spec(c) ==> (r matches Some(b) && *b == self.block_spec(c)),
            !self.in_bounds_spec(c) ==> r is None,
    {
        if self.in_bounds(c) {
            Some(&self.grid[c.y as usize][c.x as usize])
        } else {
            None
        }
    }

    /// Mutably borrows the block at an in-bounds coordinate.
    pub fn get_block_at(&mut self, c: Coord) -> (r: &mut CityBlock)
        requires
            old(self).wf(),
            old(self).in_bounds_spec(c),
        ensures
            *r == old(self).block_spec(c),
            final(self).grid@.len() == old(self).grid@.len(),
            final(self).grid@[c.y as int]@ == old(self).grid@[c.y as int]@.update(
                c.x as int,
                *final(r),
            ),
            forall|y: int|
                0 <= y < old(self).grid@.len() && y != c.y ==> final(self).grid@[y] == old(
                    self,
                ).grid@[y],
            final(self).height == old(self).height,
            final(self).width == old(self).width,
            final(self).wf(),
    {
        let row: &mut Vec<CityBlock> = &mut self.grid[c.y as usize];
        &mut row[c.x as usize]
    }

    pub fn block_type_at(&self, c: Coord) -> (r: Option<BlockType>)
        requires
            self.wf(),
        ensures
            self.in_bounds_spec(c) ==> r == Some(self.block_spec(c).base_spec().block_type),
            !self.in_bounds_spec(c) ==> r is None,
    {
        match self.block_at(c) {
            Some(b) => Some(b.get_type()),
            None => None,
        }
    }

    pub fn policy_at(&self, coord: Coord) -> (r: Option<TransportPolicy>)
        requires
            self.wf(),
        ensures
            self.in_bounds_spec(coord) ==> r == Some(self.block_spec(coord).base_spec().policy),
            !self.in_bounds_spec(coord) ==> r is None,
    {
        if self.in_bounds(coord) {
            Some(self.grid[coord.y as usize][coord.x as usize].get_policy())
        } else {
            None
        }
    }

    /// The in-bounds cells a step right, left, down or up from `coord`,
    /// in that order.
    pub open spec fn neighbors_spec(&self, c: Coord) -> Seq<Coord> {
        let s0 = Seq::<Coord>::empty();
        let s1 = if self.xy_in_bounds(c.x + 1, c.y as int) {
            s0.push(Coord { x: (c.x + 1) as i16, y: c.y })
        } else {
            s0
        };
        let s2 = if self.xy_in_bounds(c.x - 1, c.y as int) {
            s1.push(Coord { x: (c.x - 1) as i16, y: c.y })
        } else {
            s1
        };
        let s3 = if self.xy_in_bounds(c.x as int, c.y + 1) {
            s2.push(Coord { x: c.x, y: (c.y + 1) as i16 })
        } else {
            s2
        };
        if self.xy_in_bounds(c.x as int, c.y - 1) {
            s3.push(Coord { x: c.x, y: (c.y - 1) as i16 })
        } else {
            s3
        }
    }

    pub open spec fn xy_in_bounds(&self, x: int, y: int) -> bool {
        0 <= x < self.width && 0 <= y < self.height
    }

    pub fn neighbors(&self, coord: Coord) -> (r: Vec<Coord>)
        ensures
            r@ == self.neighbors_spec(coord),
    {
        let x = coord.x as i32;
        let y = coord.y as i32;
        let w = self.width as i32;
        let h = self.height as i32;
        let mut v: Vec<Coord> = Vec::new();
        if 0 <= x + 1 && x + 1 < w && 0 <= y && y < h {
            v.push(Coord::new((x + 1) as i16, coord.y));
        }
        if 0 <= x - 1 && x - 1 < w && 0 <= y && y < h {
            v.push(Coord::new((x - 1) as i16, coord.y));
        }
        if 0 <= x && x < w && 0 <= y + 1 && y + 1 < h {
            v.push(Coord::new(coord.x, (y + 1) as i16));
        }
        if 0 <= x && x < w && 0 <= y - 1 && y - 1 < h {
            v.push(Coord::new(coord.x, (y - 1) as i16));
        }
        proof {
            assert(v@ =~= self.neighbors_spec(coord));
        }
        v
    }

    pub fn width_cells(&self) -> (r: i16)
        ensures
            r == self.width,
    {
        self.width
    }

    pub fn height_cells(&self) -> (r: i16)
        ensures
            r == self.height,
    {
        self.height
    }

    pub fn size_cells(&self) -> (r: (i16, i16))
        ensures
            r == (self.width, self.height),
    {
        (self.width, self.height)
    }

    /// All coordinates of the grid, left to right then top to bottom:
    /// entry `i` is column `i % width` of row `i / width`.
    pub fn coords_iter(&self) -> (r: Vec<Coord>)
        requires
            self.wf(),
        ensures
            r@.len() == self.height * self.width,
            forall|i: int|
                0 <= i < r@.len() ==> #[trigger] r@[i] == (Coord {
                    x: (i % (self.width as int)) as i16,
                    y: (i / (self.width as int)) as i16,
                }),
    {
        let w = self.width as usize;
        let h = self.height as usize;
        proof {
            assert(h * w <= 0x7fff * 0x7fff) by (nonlinear_arith)
                requires
                    h <= 0x7fff,
                    w <= 0x7fff,
            ;
        }
        let total = h * w;
        let mut v: Vec<Coord> = Vec::new();
        let mut i: usize = 0;
        while i < total
            invariant
                w == self.width as int,
                h == self.height as int,
                total == h * w,
                total <= 0x7fff * 0x7fff,
                i <= total,
                v@.len() == i,
                forall|k: int|
                    0 <= k < v@.len() ==> #[trigger] v@[k] == (Coord {
                        x: (k % (w as int)) as i16,
                        y: (k / (w as int)) as i16,
                    }),
            decreases total - i,
        {
            proof {
                assert(w != 0) by (nonlinear_arith)
                    requires
                        i < total,
                        total == h * w,
                        i >= 0,
                ;
                assert(i / w < h && i % w < w) by (nonlinear_arith)
                    requires
                        w != 0,
                        i < h * w,
                        i >= 0,
                ;
            }
            let cx = i % w;
            let cy = i / w;
            v.push(Coord::new(cx as i16, cy as i16));
            i = i + 1;
        }
        v
    }

    /// The plant status at a coordinate, when the cell is a nuclear
    /// plant.
    pub fn try_plant_status_at(&self, coord: Coord) -> (r: Option<PlantStatus>)
        requires
            self.wf(),
        ensures
            r == self.plant_status_spec(coord),
    {
        if !self.in_bounds(coord) {
            return None;
        }
        match &self.grid[coord.y as usize][coord.x as usize] {
            CityBlock::NuclearPlant(p) => Some(p.plant_status),
            _ => None,
        }
    }

    /// The fixed demonstration city, 23 rows of 25 blocks: shop
    /// streets and road blocks in the north, a river row with three
    /// differently governed bridges, a dock island, and two nuclear
    /// plants.
    pub fn map_25x25_with_all_blocks() -> (r: BlockGrid)
        ensures
            r.wf(),
            r.height == 23,
            r.width == 25,
    {
        let mut grid: Vec<Vec<CityBlock>> = Vec::new();
        grid.push(city_row_0());
        grid.push(city_row_1());
        grid.push(city_row_2());
        grid.push(city_row_3());
        grid.push(city_row_4());
        grid.push(city_row_5());
        grid.push(city_row_6());
        grid.push(city_row_7());
        grid.push(city_row_8());
        grid.push(city_row_9());
        grid.push(city_row_10());
        grid.push(city_row_11());
        grid.push(city_row_12());
        grid.push(city_row_13());
        grid.push(city_row_14());
        grid.push(city_row_15());
        grid.push(city_row_16());
        grid.push(city_row_17());
        grid.push(city_row_18());
        grid.push(city_row_19());
        grid.push(city_row_20());
        grid.push(city_row_21());
        grid.push(city_row_22());
        proof {
            assert forall|y: int| 0 <= y < grid@.len() implies (#[trigger] grid@[y]).len()
                == grid@[0].len() by {}
        }
        BlockGrid::build_custom(grid)
    }

    /// The coordinates of every block of the given kind, in row-major
    /// order.
    pub fn find_blocks(&self, target: BlockType) -> (r: Vec<Coord>)
        requires
            self.wf(),
        ensures
            forall|k: int|
                0 <= k < r@.len() ==> self.in_bounds_spec(#[trigger] r@[k]) && self.block_spec(
                    r@[k],
                ).base_spec().block_type == target,
            forall|y: int, x: int|
                0 <= y < self.height && 0 <= x < self.width && self.grid@[y][x].base_spec().block_type
                    == target ==> exists|k: int|
                    0 <= k < r@.len() && r@[k] == (Coord { x: x as i16, y: y as i16 }),
            forall|k1: int, k2: int|
                0 <= k1 < k2 < r@.len() ==> (r@[k1].y < r@[k2].y || (r@[k1].y == r@[k2].y
                    && r@[k1].x < r@[k2].x)),
    {
        let h = self.height as usize;
        let w = self.width as usize;
        let mut v: Vec<Coord> = Vec::new();
        let mut y: usize = 0;
        while y < h
            invariant
                self.wf(),
                w == self.width as int,
                h == self.height as int,
                y <= h,
                forall|k: int|
                    0 <= k < v@.len() ==> self.in_bounds_spec(#[trigger] v@[k]) && self.block_spec(
                        v@[k],
                    ).base_spec().block_type == target && v@[k].y < y,
                forall|y0: int, x0: int|
                    0 <= y0 < y && 0 <= x0 < w && self.grid@[y0][x0].base_spec().block_type
                        == target ==> exists|k: int|
                        0 <= k < v@.len() && v@[k] == (Coord { x: x0 as i16, y: y0 as i16 }),
                forall|k1: int, k2: int|
                    0 <= k1 < k2 < v@.len() ==> (v@[k1].y < v@[k2].y || (v@[k1].y == v@[k2].y
                        && v@[k1].x < v@[k2].x)),
            decreases h - y,
        {
            let mut x: usize = 0;
            while x < w
                invariant
                    self.wf(),
                    w == self.width as int,
                    h == self.height as int,
                    y < h,
                    x <= w,
                    forall|k: int|
                        0 <= k < v@.len() ==> self.in_bounds_spec(#[trigger] v@[k])
                            && self.block_spec(v@[k]).base_spec().block_type == target && (v@[k].y
                            < y || (v@[k].y == y && v@[k].x < x)),
                    forall|y0: int, x0: int|
                        0 <= y0 < y && 0 <= x0 < w && self.grid@[y0][x0].base_spec().block_type
                            == target ==> exists|k: int|
                            0 <= k < v@.len() && v@[k] == (Coord { x: x0 as i16, y: y0 as i16 }),
                    forall|x0: int|
                        0 <= x0 < x && self.grid@[y as int][x0].base_spec().block_type == target
                            ==> exists|k: int|
                            0 <= k < v@.len() && v@[k] == (Coord { x: x0 as i16, y: y as i16 }),
                    forall|k1: int, k2: int|
                        0 <= k1 < k2 < v@.len() ==> (v@[k1].y < v@[k2].y || (v@[k1].y == v@[k2].y
                            && v@[k1].x < v@[k2].x)),
                decreases w - x,
            {
                let bt = self.grid[y][x].get_type();
                if types_equal(bt, target) {
                    let ghost vpre = v@;
                    v.push(Coord::new(x as i16, y as i16));
                    proof {
                        assert forall|y0: int, x0: int|
                            0 <= y0 < y && 0 <= x0 < w
                                && self.grid@[y0][x0].base_spec().block_type == target implies
                            exists|k: int|
                                0 <= k < v@.len() && v@[k] == (Coord {
                                    x: x0 as i16,
                                    y: y0 as i16,
                                }) by {
                            let k0 = choose|k: int|
                                0 <= k < vpre.len() && vpre[k] == (Coord {
                                    x: x0 as i16,
                                    y: y0 as i16,
                                });
                            assert(v@[k0] == vpre[k0]);
                        }
                        assert forall|x0: int|
                            0 <= x0 < x + 1 && self.grid@[y as int][x0].base_spec().block_type
                                == target implies exists|k: int|
                                0 <= k < v@.len() && v@[k] == (Coord {
                                    x: x0 as i16,
                                    y: y as i16,
                                }) by {
                            if x0 < x {
                                let k0 = choose|k: int|
                                    0 <= k < vpre.len() && vpre[k] == (Coord {
                                        x: x0 as i16,
                                        y: y as i16,
                                    });
                                assert(v@[k0] == vpre[k0]);
                            } else {
                                assert(v@[v@.len() - 1] == (Coord { x: x0 as i16, y: y as i16 }));
                            }
                        }
                    }
                } else {
                    proof {
                        assert forall|x0: int|
                            0 <= x0 < x + 1 && self.grid@[y as int][x0].base_spec().block_type
                                == target implies exists|k: int|
                                0 <= k < v@.len() && v@[k] == (Coord {
                                    x: x0 as i16,
                                    y: y as i16,
                                }) by {
                            assert(x0 < x || self.grid@[y as int][x0].base_spec().block_type
                                != target);
                        }
                    }
                }
                x = x + 1;
            }
            y = y + 1;
        }
        v
    }
}

/// Exact comparison of two block types.
fn types_equal(a: BlockType, b: BlockType) -> (r: bool)
    ensures
        r == (a == b),
{
    a == b
}

/// One row of the demonstration city.
fn city_row_0() -> (r: Vec<CityBlock>)
    ensures
        r@.len() == 25,
{
    vec![
        CityBlock::Road(RoadBlock::new(0)),
        CityBlock::Road(RoadBlock::new(1)),
        CityBlock::Road(RoadBlock::new(2)),
        CityBlock::Road(RoadBlock::new(3)),
        CityBlock::Road(RoadBlock::new(4)),
        CityBlock::Road(RoadBlock::new(5)),
        CityBlock::Road(RoadBlock::new(6)),
        CityBlock::Road(RoadBlock::new(7)),
        CityBlock::Road(RoadBlock::new(8)),
        CityBlock::Road(RoadBlock::new(9)),
        CityBlock::Shops(ShopBlock::new(10,vec![Shop::new("TacoBell #1".to_string()), Shop::new("TacoBell #2".to_string())])),
        CityBlock::Shops(ShopBlock::new(11,vec![Shop::new("KFC #1".to_string()), Shop::new("KFC #2".to_string())])),
        CityBlock::Shops(ShopBlock::new(12,vec![Shop::new("BurgerKing #1".to_string()), Shop::new("BurgerKing #2".to_string())])),
        CityBlock::Shops(ShopBlock::new(13,vec![Shop::new("McDonald #1".to_string()), Shop::new("McDonald #2".to_string())])),
        CityBlock::Road(RoadBlock::new(14)),
        CityBlock::Road(RoadBlock::new(15)),
        CityBlock::Road(RoadBlock::new(16)),
        CityBlock::Road(RoadBlock::new(17)),
        CityBlock::Shops(ShopBlock::new(18, vec![Shop::new("Pizzeria Don Juan #1".to_string())])),
        CityBlock::Shops(ShopBlock::new(19,vec![Shop::new("Barberia #1".to_string()), Shop::new("Barberia #2".to_string()), Shop::new("Barberia #3".to_string())])),
        CityBlock::Road(RoadBlock::new(20)),
        CityBlock::Road(RoadBlock::new(21)),
        CityBlock::Water(WaterBlock::new(22)),
        CityBlock::Water(WaterBlock::new(23)),
        CityBlock::Water(WaterBlock::new(24)),
    ]
}

/// One row of the demonstration city.
fn city_row_1() -> (r: Vec<CityBlock>)
    ensures
        r@.len() == 25,
{
    vec![
        CityBlock::Road(RoadBlock::new(26)),
        CityBlock::Shops(ShopBlock::new(27,vec![Shop::new("NovaCinemas #1".to_string())])),
        CityBlock::Road(RoadBlock::new(28)),
        CityBlock::Shops(ShopBlock::new(29,vec![Shop::new("Cinemark #1".to_string())])),
        CityBlock::Road(RoadBlock::new(30)),
        CityBlock::Shops(ShopBlock::new(31,vec![Shop::new("Pollo Granjero #1".to_string()), Shop::new("Pollo Granjero #2".to_string())])),
        CityBlock::Shops(ShopBlock::new(32,vec![Shop::new("Pizza hut #1".to_string()), Shop::new("Pizza Hut #2".to_string())])),
        CityBlock::Shops(ShopBlock::new(33,vec![Shop::new("Dominoes #1".to_string()), Shop::new("Dominoes #1".to_string()),Shop::new("Dominoes #3".to_string())])),
        CityBlock::Road(RoadBlock::new(34)),
        CityBlock::Road(RoadBlock::new(35)),
        CityBlock::Road(RoadBlock::new(36)),
        CityBlock::Road(RoadBlock::new(37)),
        CityBlock::Shops(ShopBlock::new(38,vec![Shop::new("Ready Pizza #1".to_string())])),
        CityBlock::Shops(ShopBlock::new(39,vec![Shop::new("Cesaers Pizza #1".to_string())])),
        CityBlock::Shops(ShopBlock::new(40,vec![Shop::new("Papas John #1".to_string())])),
        CityBlock::Shops(ShopBlock::new(41,vec![Shop::new(" Pizza a la leña #1".to_string())])),
        CityBlock::Road(RoadBlock::new(42)),
        CityBlock::Shops(ShopBlock::new(43,vec![Shop::new("Barberia Manolo".to_string()), Shop::new("Barberia Paco".to_string()), Shop::new("Barberia #3".to_string())])),
        CityBlock::Shops(ShopBlock::new(44, vec![Shop::new("POPS".to_string())])),
        CityBlock::Road(RoadBlock::new(45)),
        CityBlock::Road(RoadBlock::new(46)),
        CityBlock::Water(WaterBlock::new(47)),
        CityBlock::Water(WaterBlock::new(48)),
        CityBlock::Water(WaterBlock::new(49)),
        CityBlock::Water(WaterBlock::new(50)),
    ]
}

/// One row of the demonstration city.
fn city_row_2() -> (r: Vec<CityBlock>)
    ensures
        r@.len() == 25,
{
    vec![
        CityBlock::Road(RoadBlock::new(51)),
        CityBlock::Road(RoadBlock::new(52)),
        CityBlock::Road(RoadBlock::new(53)),
        CityBlock::Road(RoadBlock::new(54)),
        CityBlock::Road(RoadBlock::new(55)),
        CityBlock::Road(RoadBlock::new(56)),
        CityBlock::Shops(ShopBlock::new(57,vec![Shop::new("iCon #1".to_string()), Shop::new("TacoBell #2".to_string())])),
        CityBlock::Road(RoadBlock::new(58)),
        CityBlock::Road(RoadBlock::new(59)),
        CityBlock::Road(RoadBlock::new(60)),
        CityBlock::Shops(ShopBlock::new(61,vec![Shop::new("Huawei #1".to_string()), Shop::new("KFC #2".to_string())])),
        CityBlock::Road(RoadBlock::new(62)),
        CityBlock::Road(RoadBlock::new(63)),
        CityBlock::Road(RoadBlock::new(64)),
        CityBlock::Road(RoadBlock::new(65)),
        CityBlock::Road(RoadBlock::new(66)),
        CityBlock::Road(RoadBlock::new(67)),
        CityBlock::Road(RoadBlock::new(68)),
        CityBlock::Shops(ShopBlock::new(69, vec![Shop::new("Samsung #1".to_string())])),
        CityBlock::Shops(ShopBlock::new(70,vec![Shop::new("Xiaomi #1".to_string()), Shop::new("Xiaomi #2".to_string()), Shop::new("Xiaomi #3".to_string())])),
        CityBlock::Road(RoadBlock::new(71)),
        CityBlock::Water(WaterBlock::new(72)),
        CityBlock::Water(WaterBlock::new(73)),
        CityBlock::Water(WaterBlock::new(74)),
        CityBlock::Water(WaterBlock::new(75)),
    ]
}

/// One row of the demonstration city.
fn city_row_3() -> (r: Vec<CityBlock>)
    ensures
        r@.len() == 25,
{
    vec![
        CityBlock::Road(RoadBlock::new(76)),
        CityBlock::Shops(ShopBlock::new(77,vec![Shop::new("La estacion #1".to_string())])),
        CityBlock::Road(RoadBlock::new(78)),
        CityBlock::Shops(ShopBlock::new(79,vec![Shop::new("Pinitos #1".to_string())])),
        CityBlock::Shops(ShopBlock::new(80,vec![Shop::new("Dos Pinos #1".to_string())])),
        CityBlock::Road(RoadBlock::new(81)),
        CityBlock::Road(RoadBlock::new(82)),
        CityBlock::Road(RoadBlock::new(83)),
        CityBlock::Shops(ShopBlock::new(84,vec![Shop::new("Municipalidad #1".to_string()), Shop::new("Ebais #2".to_string())])),
        CityBlock::Road(RoadBlock::new(85)),
        CityBlock::Road(RoadBlock::new(86)),
        CityBlock::Road(RoadBlock::new(87)),
        CityBlock::Road(RoadBlock::new(88)),
        CityBlock::Shops(ShopBlock::new(89,vec![Shop::new("Walmart #1".to_string())])),
        CityBlock::Shops(ShopBlock::new(90,vec![Shop::new("Megasuper #1".to_string())])),
        CityBlock::Shops(ShopBlock::new(91,vec![Shop::new("HiperMas #1".to_string())])),
        CityBlock::Road(RoadBlock::new(92)),
        CityBlock::Shops(ShopBlock::new(93,vec![Shop::new("Farmavalue #1".to_string())])),
        CityBlock::Shops(ShopBlock::new(94,vec![Shop::new("La confianza #1".to_string())])),
        CityBlock::Shops(ShopBlock::new(95,vec![Shop::new("Dunkin #1".to_string())])),
        CityBlock::Road(RoadBlock::new(96)),
        CityBlock::Water(WaterBlock::new(97)),
        CityBlock::Water(WaterBlock::new(98)),
        CityBlock::Water(WaterBlock::new(99)),
        CityBlock::Water(WaterBlock::new(100)),
    ]
}

/// One row of the demonstration city.
fn city_row_4() -> (r: Vec<CityBlock>)
    ensures
        r@.len() == 25,
{
    vec![
        CityBlock::Road(RoadBlock::new(101)),
        CityBlock::Shops(ShopBlock::new(102,vec![Shop::new("Super baterias #1".to_string())])),
        CityBlock::Road(RoadBlock::new(103)),
        CityBlock::Road(RoadBlock::new(104)),
        CityBlock::Road(RoadBlock::new(105)),
        CityBlock::Road(RoadBlock::new(106)),
        CityBlock::Shops(ShopBlock::new(107,vec![Shop::new("Hamburguesas pirata #1".to_string())])),
        CityBlock::Road(RoadBlock::new(108)),
        CityBlock::Road(RoadBlock::new(109)),
        CityBlock::Road(RoadBlock::new(110)),
        CityBlock::Shops(ShopBlock::new(111,vec![Shop::new("Space pizza #1".to_string()), Shop::new("Space pizza #2".to_string())])),
        CityBlock::Road(RoadBlock::new(112)),
        CityBlock::Shops(ShopBlock::new(113,vec![Shop::new("Video #1".to_string())])),
        CityBlock::Shops(ShopBlock::new(114,vec![Shop::new("Iglesia #1".to_string())])),
        CityBlock::Road(RoadBlock::new(115)),
        CityBlock::Road(RoadBlock::new(116)),
        CityBlock::Road(RoadBlock::new(117)),
        CityBlock::Road(RoadBlock::new(118)),
        CityBlock::Road(RoadBlock::new(119)),
        CityBlock::Road(RoadBlock::new(120)),
        CityBlock::Road(RoadBlock::new(121)),
        CityBlock::Water(WaterBlock::new(122)),
        CityBlock::Water(WaterBlock::new(123)),
        CityBlock::Water(WaterBlock::new(124)),
        CityBlock::Water(WaterBlock::new(125)),
    ]
}

/// One row of the demonstration city.
fn city_row_5() -> (r: Vec<CityBlock>)
    ensures
        r@.len() == 25,
{
    vec![
        CityBlock::Road(RoadBlock::new(126)),
        CityBlock::Shops(ShopBlock::new(127,vec![Shop::new("La casona #1".to_string())])),
        CityBlock::Shops(ShopBlock::new(128,vec![Shop::new("Vainilla #1".to_string())])),
        CityBlock::Shops(ShopBlock::new(129,vec![Shop::new("BAC #1".to_string()), Shop::new("BAC #2".to_string())])),
        CityBlock::Road(RoadBlock::new(130)),
        CityBlock::Shops(ShopBlock::new(131,vec![Shop::new("BCR #1".to_string())])),
        CityBlock::Shops(ShopBlock::new(132,vec![Shop::new("Ciudad manga #1".to_string())])),
        CityBlock::Road(RoadBlock::new(133)),
        CityBlock::Shops(ShopBlock::new(134,vec![Shop::new("Agonia #1".to_string())])),
        CityBlock::Road(RoadBlock::new(135)),
        CityBlock::Road(RoadBlock::new(136)),
        CityBlock::Road(RoadBlock::new(137)),
        CityBlock::Road(RoadBlock::new(138)),
        CityBlock::Road(RoadBlock::new(139)),
        CityBlock::Road(RoadBlock::new(140)),
        CityBlock::Road(RoadBlock::new(141)),
        CityBlock::Road(RoadBlock::new(142)),
        CityBlock::Road(RoadBlock::new(143)),
        CityBlock::Road(RoadBlock::new(144)),
        CityBlock::Shops(ShopBlock::new(145,vec![Shop::new("Carnes castillo #1".to_string())])),
        CityBlock::Road(RoadBlock::new(146)),
        CityBlock::Water(WaterBlock::new(147)),
        CityBlock::Water(WaterBlock::new(148)),
        CityBlock::Water(WaterBlock::new(149)),
        CityBlock::Water(WaterBlock::new(150)),
    ]
}

/// One row of the demonstration city.
fn city_row_6() -> (r: Vec<CityBlock>)
    ensures
        r@.len() == 25,
{
    vec![
        CityBlock::Road(RoadBlock::new(151)),
        CityBlock::Road(RoadBlock::new(152)),
        CityBlock::Road(RoadBlock::new(153)),
        CityBlock::Road(RoadBlock::new(154)),
        CityBlock::Road(RoadBlock::new(155)),
        CityBlock::Shops(ShopBlock::new(156,vec![Shop::new("Negocio #1".to_string())])),
        CityBlock::Shops(ShopBlock::new(157,vec![Shop::new("Arenas #1".to_string())])),
        CityBlock::Road(RoadBlock::new(158)),
        CityBlock::Shops(ShopBlock::new(159,vec![Shop::new("Vertigo #1".to_string())])),
        CityBlock::Road(RoadBlock::new(160)),
        CityBlock::Road(RoadBlock::new(161)),
        CityBlock::Shops(ShopBlock::new(162,vec![Shop::new("Yamaha #1".to_string())])),
        CityBlock::Road(RoadBlock::new(163)),
        CityBlock::Road(RoadBlock::new(164)),
        CityBlock::Road(RoadBlock::new(165)),
        CityBlock::Road(RoadBlock::new(166)),
        CityBlock::Road(RoadBlock::new(167)),
        CityBlock::Shops(ShopBlock::new(168,vec![Shop::new("GEF #1".to_string())])),
        CityBlock::Road(RoadBlock::new(169)),
        CityBlock::Road(RoadBlock::new(170)),
        CityBlock::Road(RoadBlock::new(171)),
        CityBlock::Water(WaterBlock::new(172)),
        CityBlock::Water(WaterBlock::new(173)),
        CityBlock::Water(WaterBlock::new(174)),
        CityBlock::Water(WaterBlock::new(175)),
    ]
}

/// One row of the demonstration city.
fn city_row_7() -> (r: Vec<CityBlock>)
    ensures
        r@.len() == 25,
{
    vec![
        CityBlock::Road(RoadBlock::new(176)),
        CityBlock::Shops(ShopBlock::new(177,vec![Shop::new("Super #1".to_string())])),
        CityBlock::Road(RoadBlock::new(178)),
        CityBlock::Shops(ShopBlock::new(179,vec![Shop::new("Super Mario #1".to_string())])),
        CityBlock::Road(RoadBlock::new(180)),
        CityBlock::Road(RoadBlock::new(181)),
        CityBlock::Road(RoadBlock::new(182)),
        CityBlock::Road(RoadBlock::new(183)),
        CityBlock::Road(RoadBlock::new(184)),
        CityBlock::Road(RoadBlock::new(185)),
        CityBlock::Road(RoadBlock::new(186)),
        CityBlock::Shops(ShopBlock::new(187,vec![Shop::new("Arenas #1".to_string())])),
        CityBlock::Road(RoadBlock::new(188)),
        CityBlock::Shops(ShopBlock::new(189,vec![Shop::new("Vertigo #1".to_string())])),
        CityBlock::Road(RoadBlock::new(190)),
        CityBlock::Road(RoadBlock::new(191)),
        CityBlock::Road(RoadBlock::new(192)),
        CityBlock::Road(RoadBlock::new(193)),
        CityBlock::Road(RoadBlock::new(194)),
        CityBlock::Road(RoadBlock::new(195)),
        CityBlock::Water(WaterBlock::new(196)),
        CityBlock::Water(WaterBlock::new(197)),
        CityBlock::Water(WaterBlock::new(198)),
        CityBlock::Water(WaterBlock::new(199)),
        CityBlock::Water(WaterBlock::new(200)),
    ]
}

/// One row of the demonstration city.
fn city_row_8() -> (r: Vec<CityBlock>)
    ensures
        r@.len() == 25,
{
    vec![
        CityBlock::Road(RoadBlock::new(201)),
        CityBlock::Shops(ShopBlock::new(202,vec![Shop::new("Super #1".to_string())])),
        CityBlock::Road(RoadBlock::new(203)),
        CityBlock::Road(RoadBlock::new(204)),
        CityBlock::Road(RoadBlock::new(205)),
        CityBlock::Shops(ShopBlock::new(206,vec![Shop::new("Super María #1".to_string())])),
        CityBlock::Shops(ShopBlock::new(207,vec![Shop::new("Redentorista #1".to_string())])),
        CityBlock::Road(RoadBlock::new(208)),
        CityBlock::Shops(ShopBlock::new(209,vec![Shop::new("Colegio #1".to_string())])),
        CityBlock::Shops(ShopBlock::new(210,vec![Shop::new("Llobet #1".to_string())])),
        CityBlock::Road(RoadBlock::new(211)),
        CityBlock::Shops(ShopBlock::new(212,vec![Shop::new("Kawe #1".to_string())])),
        CityBlock::Road(RoadBlock::new(213)),
        CityBlock::Road(RoadBlock::new(214)),
        CityBlock::Road(RoadBlock::new(215)),
        CityBlock::Shops(ShopBlock::new(216,vec![Shop::new("Siete fuegos #1".to_string())])),
        CityBlock::Shops(ShopBlock::new(217,vec![Shop::new("Super la fortuna #1".to_string())])),
        CityBlock::Road(RoadBlock::new(218)),
        CityBlock::Road(RoadBlock::new(219)),
        CityBlock::Water(WaterBlock::new(220)),
        CityBlock::Water(WaterBlock::new(221)),
        CityBlock::Water(WaterBlock::new(222)),
        CityBlock::Water(WaterBlock::new(223)),
        CityBlock::Water(WaterBlock::new(224)),
        CityBlock::Water(WaterBlock::new(225)),
    ]
}

/// One row of the demonstration city.
fn city_row_9() -> (r: Vec<CityBlock>)
    ensures
        r@.len() == 25,
{
    vec![
        CityBlock::Road(RoadBlock::new(226)),
        CityBlock::Road(RoadBlock::new(227)),
        CityBlock::Road(RoadBlock::new(228)),
        CityBlock::Shops(ShopBlock::new(229,vec![Shop::new("Starbucks #1".to_string())])),
        CityBlock::Road(RoadBlock::new(230)),
        CityBlock::Road(RoadBlock::new(231)),
        CityBlock::Road(RoadBlock::new(232)),
        CityBlock::Road(RoadBlock::new(233)),
        CityBlock::Road(RoadBlock::new(234)),
        CityBlock::Road(RoadBlock::new(235)),
        CityBlock::Road(RoadBlock::new(236)),
        CityBlock::Road(RoadBlock::new(237)),
        CityBlock::Road(RoadBlock::new(238)),
        CityBlock::Road(RoadBlock::new(239)),
        CityBlock::Road(RoadBlock::new(240)),
        CityBlock::Road(RoadBlock::new(241)),
        CityBlock::Road(RoadBlock::new(242)),
        CityBlock::Road(RoadBlock::new(243)),
        CityBlock::Water(WaterBlock::new(244)),
        CityBlock::Water(WaterBlock::new(245)),
        CityBlock::Water(WaterBlock::new(246)),
        CityBlock::Water(WaterBlock::new(247)),
        CityBlock::Water(WaterBlock::new(248)),
        CityBlock::Water(WaterBlock::new(249)),
        CityBlock::Water(WaterBlock::new(250)),
    ]
}

/// One row of the demonstration city.
fn city_row_10() -> (r: Vec<CityBlock>)
    ensures
        r@.len() == 25,
{
    vec![
        CityBlock::Water(WaterBlock::new(251)),
        CityBlock::Bridge(BridgeBlock::new(252, Control::with_traffic(8, 10), MyMutex::new())),
        CityBlock::Water(WaterBlock::new(253)),
        CityBlock::Water(WaterBlock::new(254)),
        CityBlock::Water(WaterBlock::new(255)),
        CityBlock::Bridge(BridgeBlock::new(256,Control::without_traffic(true),MyMutex::new())),
        CityBlock::Water(WaterBlock::new(257)),
        CityBlock::Water(WaterBlock::new(258)),
        CityBlock::Water(WaterBlock::new(259)),
        CityBlock::Water(WaterBlock::new(260)),
        CityBlock::Water(WaterBlock::new(261)),
        CityBlock::Bridge(BridgeBlock::new(262,Control::without_traffic(false),MyMutex::new())),
        CityBlock::Water(WaterBlock::new(263)),
        CityBlock::Water(WaterBlock::new(264)),
        CityBlock::Water(WaterBlock::new(265)),
        CityBlock::Water(WaterBlock::new(266)),
        CityBlock::Water(WaterBlock::new(267)),
        CityBlock::Water(WaterBlock::new(268)),
        CityBlock::Water(WaterBlock::new(269)),
        CityBlock::Water(WaterBlock::new(270)),
        CityBlock::Water(WaterBlock::new(271)),
        CityBlock::Water(WaterBlock::new(272)),
        CityBlock::Water(WaterBlock::new(273)),
        CityBlock::Water(WaterBlock::new(274)),
        CityBlock::Water(WaterBlock::new(275)),
    ]
}

/// One row of the demonstration city.
fn city_row_11() -> (r: Vec<CityBlock>)
    ensures
        r@.len() == 25,
{
    vec![
        CityBlock::Road(RoadBlock::new(276)),
        CityBlock::Road(RoadBlock::new(277)),
        CityBlock::Road(RoadBlock::new(278)),
        CityBlock::Water(WaterBlock::new(279)),
        CityBlock::Water(WaterBlock::new(280)),
        CityBlock::Road(RoadBlock::new(281)),
        CityBlock::Road(RoadBlock::new(282)),
        CityBlock::Road(RoadBlock::new(283)),
        CityBlock::Water(WaterBlock::new(284)),
        CityBlock::Dock(DockBlock::new(285)),
        CityBlock::Water(WaterBlock::new(286)),
        CityBlock::Road(RoadBlock::new(287)),
        CityBlock::Road(RoadBlock::new(288)),
        CityBlock::Road(RoadBlock::new(289)),
        CityBlock::Water(WaterBlock::new(290)),
        CityBlock::Water(WaterBlock::new(291)),
        CityBlock::Water(WaterBlock::new(292)),
        CityBlock::Water(WaterBlock::new(293)),
        CityBlock::Water(WaterBlock::new(294)),
        CityBlock::Water(WaterBlock::new(295)),
        CityBlock::Water(WaterBlock::new(296)),
        CityBlock::Water(WaterBlock::new(297)),
        CityBlock::Water(WaterBlock::new(298)),
        CityBlock::Water(WaterBlock::new(299)),
        CityBlock::Water(WaterBlock::new(300)),
    ]
}

/// One row of the demonstration city.
fn city_row_12() -> (r: Vec<CityBlock>)
    ensures
        r@.len() == 25,
{
    vec![
        CityBlock::Road(RoadBlock::new(301)),
        CityBlock::Shops(ShopBlock::new(302,vec![Shop::new("Pinturas sur #1".to_string())])),
        CityBlock::Road(RoadBlock::new(303)),
        CityBlock::Road(RoadBlock::new(304)),
        CityBlock::Road(RoadBlock::new(305)),
        CityBlock::Road(RoadBlock::new(306)),
        CityBlock::Road(RoadBlock::new(307)),
        CityBlock::Road(RoadBlock::new(308)),
        CityBlock::Road(RoadBlock::new(309)),
        CityBlock::Road(RoadBlock::new(310)),
        CityBlock::Shops(ShopBlock::new(311,vec![Shop::new("King Chicken #1".to_string())])),
        CityBlock::Road(RoadBlock::new(312)),
        CityBlock::Road(RoadBlock::new(313)),
        CityBlock::Road(RoadBlock::new(314)),
        CityBlock::Road(RoadBlock::new(315)),
        CityBlock::Road(RoadBlock::new(316)),
        CityBlock::Road(RoadBlock::new(317)),
        CityBlock::Road(RoadBlock::new(318)),
        CityBlock::Water(WaterBlock::new(319)),
        CityBlock::Water(WaterBlock::new(320)),
        CityBlock::Water(WaterBlock::new(321)),
        CityBlock::Water(WaterBlock::new(322)),
        CityBlock::Water(WaterBlock::new(323)),
        CityBlock::Water(WaterBlock::new(324)),
        CityBlock::Water(WaterBlock::new(325)),
    ]
}

/// One row of the demonstration city.
fn city_row_13() -> (r: Vec<CityBlock>)
    ensures
        r@.len() == 25,
{
    vec![
        CityBlock::Road(RoadBlock::new(326)),
        CityBlock::Shops(ShopBlock::new(327,vec![Shop::new("Arbys #1".to_string())])),
        CityBlock::Road(RoadBlock::new(328)),
        CityBlock::Road(RoadBlock::new(329)),
        CityBlock::Shops(ShopBlock::new(330,vec![Shop::new("Pira #1".to_string())])),
        CityBlock::Road(RoadBlock::new(331)),
        CityBlock::Road(RoadBlock::new(332)),
        CityBlock::Road(RoadBlock::new(333)),
        CityBlock::Shops(ShopBlock::new(334,vec![Shop::new("HP #1".to_string())])),
        CityBlock::Road(RoadBlock::new(335)),
        CityBlock::Road(RoadBlock::new(336)),
        CityBlock::Shops(ShopBlock::new(337,vec![Shop::new("Radioshack #1".to_string())])),
        CityBlock::Shops(ShopBlock::new(338,vec![Shop::new("Liberia Internacional #1".to_string())])),
        CityBlock::Shops(ShopBlock::new(339,vec![Shop::new("PHP #1".to_string())])),
        CityBlock::Shops(ShopBlock::new(340,vec![Shop::new("Intel #1".to_string())])),
        CityBlock::Road(RoadBlock::new(341)),
        CityBlock::Road(RoadBlock::new(342)),
        CityBlock::Road(RoadBlock::new(343)),
        CityBlock::Road(RoadBlock::new(344)),
        CityBlock::Water(WaterBlock::new(345)),
        CityBlock::Water(WaterBlock::new(346)),
        CityBlock::Water(WaterBlock::new(347)),
        CityBlock::Water(WaterBlock::new(348)),
        CityBlock::Water(WaterBlock::new(349)),
        CityBlock::Water(WaterBlock::new(350)),
    ]
}

/// One row of the demonstration city.
fn city_row_14() -> (r: Vec<CityBlock>)
    ensures
        r@.len() == 25,
{
    vec![
        CityBlock::Road(RoadBlock::new(351)),
        CityBlock::Road(RoadBlock::new(352)),
        CityBlock::Road(RoadBlock::new(353)),
        CityBlock::Road(RoadBlock::new(354)),
        CityBlock::Road(RoadBlock::new(355)),
        CityBlock::Road(RoadBlock::new(356)),
        CityBlock::Road(RoadBlock::new(357)),
        CityBlock::Road(RoadBlock::new(358)),
        CityBlock::Shops(ShopBlock::new(359,vec![Shop::new("Spoon #1".to_string())])),
        CityBlock::Shops(ShopBlock::new(360,vec![Shop::new("Coqui #1".to_string())])),
        CityBlock::Road(RoadBlock::new(361)),
        CityBlock::Road(RoadBlock::new(362)),
        CityBlock::Road(RoadBlock::new(363)),
        CityBlock::Road(RoadBlock::new(364)),
        CityBlock::Shops(ShopBlock::new(365,vec![Shop::new("CRGAMES #1".to_string())])),
        CityBlock::Road(RoadBlock::new(366)),
        CityBlock::Shops(ShopBlock::new(367,vec![Shop::new("Labin #1".to_string())])),
        CityBlock::Road(RoadBlock::new(368)),
        CityBlock::Road(RoadBlock::new(369)),
        CityBlock::Water(WaterBlock::new(370)),
        CityBlock::Water(WaterBlock::new(371)),
        CityBlock::Water(WaterBlock::new(372)),
        CityBlock::Water(WaterBlock::new(373)),
        CityBlock::Water(WaterBlock::new(374)),
        CityBlock::Water(WaterBlock::new(375)),
    ]
}

/// One row of the demonstration city.
fn city_row_15() -> (r: Vec<CityBlock>)
    ensures
        r@.len() == 25,
{
    vec![
        CityBlock::Road(RoadBlock::new(376)),
        CityBlock::Road(RoadBlock::new(377)),
        CityBlock::Shops(ShopBlock::new(378,vec![Shop::new("BobaTeaTienda #1".to_string())])),
        CityBlock::Road(RoadBlock::new(379)),
        CityBlock::Road(RoadBlock::new(380)),
        CityBlock::Shops(ShopBlock::new(381,vec![Shop::new("SkinCareTienda #1".to_string())])),
        CityBlock::Road(RoadBlock::new(382)),
        CityBlock::Road(RoadBlock::new(383)),
        CityBlock::Road(RoadBlock::new(384)),
        CityBlock::Road(RoadBlock::new(385)),
        CityBlock::Road(RoadBlock::new(386)),
        CityBlock::Road(RoadBlock::new(387)),
        CityBlock::Shops(ShopBlock::new(388,vec![Shop::new("Spoon #1".to_string())])),
        CityBlock::Road(RoadBlock::new(389)),
        CityBlock::Road(RoadBlock::new(390)),
        CityBlock::Road(RoadBlock::new(391)),
        CityBlock::Shops(ShopBlock::new(392,vec![Shop::new("CRGAMES #1".to_string())])),
        CityBlock::Road(RoadBlock::new(393)),
        CityBlock::Road(RoadBlock::new(394)),
        CityBlock::Water(WaterBlock::new(395)),
        CityBlock::Water(WaterBlock::new(396)),
        CityBlock::Water(WaterBlock::new(397)),
        CityBlock::Water(WaterBlock::new(398)),
        CityBlock::Water(WaterBlock::new(399)),
        CityBlock::Water(WaterBlock::new(400)),
    ]
}

/// One row of the demonstration city.
fn city_row_16() -> (r: Vec<CityBlock>)
    ensures
        r@.len() == 25,
{
    vec![
        CityBlock::Road(RoadBlock::new(401)),
        CityBlock::Road(RoadBlock::new(402)),
        CityBlock::Shops(ShopBlock::new(403,vec![Shop::new("Miniso #1".to_string())])),
        CityBlock::Shops(ShopBlock::new(404,vec![Shop::new("Oftamlogo #1".to_string())])),
        CityBlock::Shops(ShopBlock::new(405,vec![Shop::new("Clinica #1".to_string())])),
        CityBlock::Shops(ShopBlock::new(406,vec![Shop::new("Laboratorio #1".to_string())])),
        CityBlock::Shops(ShopBlock::new(407,vec![Shop::new("Oculista #1".to_string())])),
        CityBlock::Road(RoadBlock::new(408)),
        CityBlock::Road(RoadBlock::new(409)),
        CityBlock::Road(RoadBlock::new(410)),
        CityBlock::Road(RoadBlock::new(411)),
        CityBlock::Shops(ShopBlock::new(412,vec![Shop::new("Bambash #1".to_string())])),
        CityBlock::Shops(ShopBlock::new(413,vec![Shop::new("Jugueton #1".to_string())])),
        CityBlock::Shops(ShopBlock::new(414,vec![Shop::new("Toys #1".to_string())])),
        CityBlock::Shops(ShopBlock::new(415,vec![Shop::new("Panini #1".to_string())])),
        CityBlock::Shops(ShopBlock::new(416,vec![Shop::new("Pescaderia #1".to_string())])),
        CityBlock::Shops(ShopBlock::new(417,vec![Shop::new("Verdureria #1".to_string())])),
        CityBlock::Road(RoadBlock::new(418)),
        CityBlock::Road(RoadBlock::new(419)),
        CityBlock::Water(WaterBlock::new(420)),
        CityBlock::Water(WaterBlock::new(421)),
        CityBlock::Water(WaterBlock::new(422)),
        CityBlock::Water(WaterBlock::new(423)),
        CityBlock::Water(WaterBlock::new(424)),
        CityBlock::Water(WaterBlock::new(425)),
    ]
}

/// One row of the demonstration city.
fn city_row_17() -> (r: Vec<CityBlock>)
    ensures
        r@.len() == 25,
{
    vec![
        CityBlock::Road(RoadBlock::new(426)),
        CityBlock::Road(RoadBlock::new(427)),
        CityBlock::Road(RoadBlock::new(428)),
        CityBlock::Shops(ShopBlock::new(429,vec![Shop::new("Tokyo #1".to_string())])),
        CityBlock::Road(RoadBlock::new(430)),
        CityBlock::Road(RoadBlock::new(431)),
        CityBlock::Shops(ShopBlock::new(432,vec![Shop::new("Teriyaki #1".to_string())])),
        CityBlock::Road(RoadBlock::new(433)),
        CityBlock::Road(RoadBlock::new(434)),
        CityBlock::Road(RoadBlock::new(435)),
        CityBlock::Road(RoadBlock::new(436)),
        CityBlock::Road(RoadBlock::new(437)),
        CityBlock::Road(RoadBlock::new(438)),
        CityBlock::Shops(ShopBlock::new(439,vec![Shop::new("Clinica #1".to_string())])),
        CityBlock::NuclearPlant(NuclearPlantBlock::new(440, 120, 30)),
        CityBlock::Road(RoadBlock::new(441)),
        CityBlock::Road(RoadBlock::new(442)),
        CityBlock::Road(RoadBlock::new(443)),
        CityBlock::Shops(ShopBlock::new(444,vec![Shop::new("Laboratorio #1".to_string())])),
        CityBlock::Water(WaterBlock::new(445)),
        CityBlock::Water(WaterBlock::new(446)),
        CityBlock::Water(WaterBlock::new(447)),
        CityBlock::Water(WaterBlock::new(448)),
        CityBlock::Water(WaterBlock::new(449)),
        CityBlock::Water(WaterBlock::new(450)),
    ]
}

/// One row of the demonstration city.
fn city_row_18() -> (r: Vec<CityBlock>)
    ensures
        r@.len() == 25,
{
    vec![
        CityBlock::Shops(ShopBlock::new(451,vec![Shop::new("UTN #1".to_string())])),
        CityBlock::Shops(ShopBlock::new(452,vec![Shop::new("TEC #1".to_string())])),
        CityBlock::Shops(ShopBlock::new(453,vec![Shop::new("UCR #1".to_string())])),
        CityBlock::Shops(ShopBlock::new(454,vec![Shop::new("UNA #1".to_string())])),
        CityBlock::Road(RoadBlock::new(455)),
        CityBlock::Shops(ShopBlock::new(456,vec![Shop::new("Fidelitas #1".to_string())])),
        CityBlock::Shops(ShopBlock::new(457,vec![Shop::new("UIA #1".to_string())])),
        CityBlock::Shops(ShopBlock::new(458,vec![Shop::new("UNED #1".to_string())])),
        CityBlock::Shops(ShopBlock::new(459,vec![Shop::new("UH #1".to_string())])),
        CityBlock::Shops(ShopBlock::new(460,vec![Shop::new("Latina #1".to_string())])),
        CityBlock::Road(RoadBlock::new(461)),
        CityBlock::Road(RoadBlock::new(462)),
        CityBlock::Road(RoadBlock::new(463)),
        CityBlock::Shops(ShopBlock::new(464,vec![Shop::new("JBL #1".to_string())])),
        CityBlock::Shops(ShopBlock::new(465,vec![Shop::new("Skullhead #1".to_string())])),
        CityBlock::Shops(ShopBlock::new(466,vec![Shop::new("PLaystation #1".to_string())])),
        CityBlock::Shops(ShopBlock::new(467,vec![Shop::new("Xbox #1".to_string())])),
        CityBlock::Shops(ShopBlock::new(468,vec![Shop::new("Nintendo #1".to_string())])),
        CityBlock::Shops(ShopBlock::new(469,vec![Shop::new("Team cherry tienda#1".to_string())])),
        CityBlock::Water(WaterBlock::new(470)),
        CityBlock::Water(WaterBlock::new(471)),
        CityBlock::Water(WaterBlock::new(472)),
        CityBlock::Water(WaterBlock::new(473)),
        CityBlock::Water(WaterBlock::new(474)),
        CityBlock::Water(WaterBlock::new(475)),
    ]
}

/// One row of the demonstration city.
fn city_row_19() -> (r: Vec<CityBlock>)
    ensures
        r@.len() == 25,
{
    vec![
        CityBlock::Shops(ShopBlock::new(476,vec![Shop::new("universidad Alajuela #1".to_string())])),
        CityBlock::Road(RoadBlock::new(477)),
        CityBlock::Road(RoadBlock::new(478)),
        CityBlock::Road(RoadBlock::new(479)),
        CityBlock::Road(RoadBlock::new(480)),
        CityBlock::Road(RoadBlock::new(481)),
        CityBlock::Road(RoadBlock::new(482)),
        CityBlock::Road(RoadBlock::new(483)),
        CityBlock::Shops(ShopBlock::new(484,vec![Shop::new("Google #1".to_string())])),
        CityBlock::Road(RoadBlock::new(485)),
        CityBlock::Road(RoadBlock::new(486)),
        CityBlock::Road(RoadBlock::new(487)),
        CityBlock::Road(RoadBlock::new(488)),
        CityBlock::Shops(ShopBlock::new(489,vec![Shop::new("Microsoft #1".to_string())])),
        CityBlock::Road(RoadBlock::new(490)),
        CityBlock::Road(RoadBlock::new(491)),
        CityBlock::Road(RoadBlock::new(492)),
        CityBlock::Road(RoadBlock::new(493)),
        CityBlock::Shops(ShopBlock::new(494,vec![Shop::new("In and out #1".to_string())])),
        CityBlock::Road(RoadBlock::new(495)),
        CityBlock::Water(WaterBlock::new(496)),
        CityBlock::Water(WaterBlock::new(497)),
        CityBlock::Water(WaterBlock::new(498)),
        CityBlock::Water(WaterBlock::new(499)),
        CityBlock::Water(WaterBlock::new(500)),
    ]
}

/// One row of the demonstration city.
fn city_row_20() -> (r: Vec<CityBlock>)
    ensures
        r@.len() == 25,
{
    vec![
        CityBlock::Shops(ShopBlock::new(501,vec![Shop::new("Kojim Productions #1".to_string())])),
        CityBlock::Road(RoadBlock::new(502)),
        CityBlock::Shops(ShopBlock::new(503,vec![Shop::new("Black&Decker #1".to_string())])),
        CityBlock::Shops(ShopBlock::new(504,vec![Shop::new("Suli #1".to_string())])),
        CityBlock::Road(RoadBlock::new(505)),
        CityBlock::Road(RoadBlock::new(506)),
        CityBlock::Road(RoadBlock::new(507)),
        CityBlock::Road(RoadBlock::new(508)),
        CityBlock::Shops(ShopBlock::new(509,vec![Shop::new("Pali #1".to_string())])),
        CityBlock::Shops(ShopBlock::new(510,vec![Shop::new("MasxMenos #1".to_string())])),
        CityBlock::Shops(ShopBlock::new(511,vec![Shop::new("Telenoticias #1".to_string())])),
        CityBlock::Road(RoadBlock::new(512)),
        CityBlock::Road(RoadBlock::new(513)),
        CityBlock::Shops(ShopBlock::new(514,vec![Shop::new("Repretel #1".to_string())])),
        CityBlock::Road(RoadBlock::new(515)),
        CityBlock::Shops(ShopBlock::new(516,vec![Shop::new("Televisa #1".to_string())])),
        CityBlock::Road(RoadBlock::new(517)),
        CityBlock::Road(RoadBlock::new(518)),
        CityBlock::Shops(ShopBlock::new(519,vec![Shop::new("Cinepolis #1".to_string())])),
        CityBlock::Road(RoadBlock::new(520)),
        CityBlock::Water(WaterBlock::new(521)),
        CityBlock::Water(WaterBlock::new(522)),
        CityBlock::Water(WaterBlock::new(523)),
        CityBlock::Water(WaterBlock::new(524)),
        CityBlock::Water(WaterBlock::new(525)),
    ]
}

/// One row of the demonstration city.
fn city_row_21() -> (r: Vec<CityBlock>)
    ensures
        r@.len() == 25,
{
    vec![
        CityBlock::Road(RoadBlock::new(526)),
        CityBlock::Road(RoadBlock::new(527)),
        CityBlock::Shops(ShopBlock::new(528,vec![Shop::new("restaurante #1".to_string())])),
        CityBlock::Shops(ShopBlock::new(529,vec![Shop::new("Salon de patines #1".to_string())])),
        CityBlock::Road(RoadBlock::new(530)),
        CityBlock::Shops(ShopBlock::new(531,vec![Shop::new("Sardimar #1".to_string())])),
        CityBlock::Shops(ShopBlock::new(532,vec![Shop::new("Tesoro del mar #1".to_string())])),
        CityBlock::Road(RoadBlock::new(533)),
        CityBlock::Road(RoadBlock::new(534)),
        CityBlock::Road(RoadBlock::new(535)),
        CityBlock::Road(RoadBlock::new(536)),
        CityBlock::Road(RoadBlock::new(537)),
        CityBlock::Road(RoadBlock::new(538)),
        CityBlock::Road(RoadBlock::new(539)),
        CityBlock::Road(RoadBlock::new(540)),
        CityBlock::Shops(ShopBlock::new(541,vec![Shop::new("Fanta #1".to_string())])),
        CityBlock::Shops(ShopBlock::new(542,vec![Shop::new("Coca cola #1".to_string())])),
        CityBlock::Road(RoadBlock::new(543)),
        CityBlock::Shops(ShopBlock::new(544,vec![Shop::new("Pepsi #1".to_string())])),
        CityBlock::Road(RoadBlock::new(545)),
        CityBlock::Road(RoadBlock::new(546)),
        CityBlock::Road(RoadBlock::new(547)),
        CityBlock::Water(WaterBlock::new(548)),
        CityBlock::Water(WaterBlock::new(549)),
        CityBlock::Water(WaterBlock::new(550)),
    ]
}

/// One row of the demonstration city.
fn city_row_22() -> (r: Vec<CityBlock>)
    ensures
        r@.len() == 25,
{
    vec![
        CityBlock::NuclearPlant(NuclearPlantBlock::new(551, 120, 30)),
        CityBlock::Shops(ShopBlock::new(552,vec![Shop::new("Tienda mercancía Chernobyl #1".to_string())])),
        CityBlock::Road(RoadBlock::new(553)),
        CityBlock::Road(RoadBlock::new(554)),
        CityBlock::Road(RoadBlock::new(555)),
        CityBlock::Road(RoadBlock::new(556)),
        CityBlock::Road(RoadBlock::new(557)),
        CityBlock::Shops(ShopBlock::new(558,vec![Shop::new("Salon de patines #1".to_string())])),
        CityBlock::Road(RoadBlock::new(559)),
        CityBlock::Road(RoadBlock::new(560)),
        CityBlock::Road(RoadBlock::new(561)),
        CityBlock::Road(RoadBlock::new(562)),
        CityBlock::Road(RoadBlock::new(563)),
        CityBlock::Road(RoadBlock::new(564)),
        CityBlock::Road(RoadBlock::new(565)),
        CityBlock::Shops(ShopBlock::new(566,vec![Shop::new("Sardimar #1".to_string())])),
        CityBlock::Road(RoadBlock::new(567)),
        CityBlock::Road(RoadBlock::new(568)),
        CityBlock::Road(RoadBlock::new(569)),
        CityBlock::Road(RoadBlock::new(570)),
        CityBlock::Road(RoadBlock::new(571)),
        CityBlock::Road(RoadBlock::new(572)),
        CityBlock::Shops(ShopBlock::new(573,vec![Shop::new("Tesoro del mar #1".to_string())])),
        CityBlock::Water(WaterBlock::new(574)),
        CityBlock::Water(WaterBlock::new(575)),
    ]
}

} // verus!
