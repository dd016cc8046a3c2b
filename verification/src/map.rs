//! The grid map: immutable terrain plus the mutable feature overlay.

use vstd::prelude::*;

use crate::biomes::Biomes;
use crate::features::Features;
use crate::neighborhood::{EuclideanNeighborhood, MAX_GRID_DIM};
use crate::tile::TilePos;

verus! {

/// A row-major grid of terrain cells with an optional feature per tile.
/// The shape is fixed at construction; only the feature layer mutates.
#[derive(Clone, Debug)]
pub struct GridMap {
    pub tiles: Vec<Biomes>,
    pub features: Vec<Option<Features>>,
    pub neighborhood: EuclideanNeighborhood,
    pub height: u32,
    pub width: u32,
}

impl GridMap {
    /// Number of tiles on the map.
    pub open spec fn area(self) -> int {
        self.width * self.height
    }

    /// Shape invariant: both layers cover the whole grid, the grid fits the
    /// machine, and the adjacency helper is bound to the same dimensions.
    pub open spec fn wf(self) -> bool {
        &&& self.tiles@.len() == self.area()
        &&& self.features@.len() == self.area()
        &&& self.width <= MAX_GRID_DIM
        &&& self.height <= MAX_GRID_DIM
        &&& self.area() <= usize::MAX
        &&& self.neighborhood.width == self.width
        &&& self.neighborhood.height == self.height
    }

    pub open spec fn in_bounds(self, x: int, y: int) -> bool {
        0 <= x < self.width && 0 <= y < self.height
    }

    /// The row-major index of an in-bounds coordinate.
    pub open spec fn idx_spec(self, x: int, y: int) -> int {
        y * self.width + x
    }

    /// A fresh map of the given size: every tile is empty terrain with no
    /// feature.
    pub fn new(height: u32, width: u32) -> (r: GridMap)
        requires
            width <= MAX_GRID_DIM,
            height <= MAX_GRID_DIM,
            width * height <= usize::MAX,
        ensures
            r.wf(),
            r.height == height,
            r.width == width,
            forall|k: int| 0 <= k < r.area() ==> r.tiles@[k] == Biomes::Empty,
            forall|k: int| 0 <= k < r.area() ==> r.features@[k] is None,
    {
        let area: usize = (width as usize) * (height as usize);
        let mut tiles: Vec<Biomes> = Vec::new();
        let mut features: Vec<Option<Features>> = Vec::new();
        let mut i: usize = 0;
        while i < area
            invariant
                i <= area,
                tiles@.len() == i,
                features@.len() == i,
                forall|k: int| 0 <= k < i ==> tiles@[k] == Biomes::Empty,
                forall|k: int| 0 <= k < i ==> features@[k] is None,
            decreases area - i,
        {
            tiles.push(Biomes::Empty);
            features.push(None);
            i = i + 1;
        }
        GridMap {
            tiles,
            features,
            height,
            width,
            neighborhood: EuclideanNeighborhood::new(width as usize, height as usize),
        }
    }

    /// Row-major index of an in-bounds tile coordinate.
    pub fn tile_xy_idx(&self, x: u32, y: u32) -> (r: usize)
        requires
            self.wf(),
            self.in_bounds(x as int, y as int),
        ensures
            r == self.idx_spec(x as int, y as int),
            r < self.area(),
    {
        proof {
            lemma_idx_bound(self.width as int, self.height as int, x as int, y as int);
        }
        (y as usize) * (self.width as usize) + (x as usize)
    }

    /// The tile coordinate of a row-major index; inverse of `tile_xy_idx`
    /// for every in-bounds coordinate.
    pub fn idx_tile_xy(&self, idx: usize) -> (r: TilePos)
        requires
            self.wf(),
            idx < self.area(),
        ensures
            self.in_bounds(r.x as int, r.y as int),
            self.idx_spec(r.x as int, r.y as int) == idx,
            r.x == idx as int % self.width as int,
            r.y == idx as int / self.width as int,
    {
        proof {
            lemma_idx_split(self.width as int, self.height as int, idx as int);
        }
        let w = self.width as usize;
        TilePos::new((idx % w) as u32, (idx / w) as u32)
    }

    /// The feature on a tile; fails closed to `None` off the map.
    pub open spec fn feature_at_spec(self, x: int, y: int) -> Option<Features> {
        if self.in_bounds(x, y) {
            self.features@[self.idx_spec(x, y)]
        } else {
            None
        }
    }

    pub fn feature_at(&self, x: u32, y: u32) -> (r: Option<Features>)
        requires
            self.wf(),
        ensures
            r == self.feature_at_spec(x as int, y as int),
    {
        if x >= self.width || y >= self.height {
            return None;
        }
        let idx = self.tile_xy_idx(x, y);
        self.features[idx]
    }

    /// The cost of the terrain alone; -1 off the map or on impassable
    /// terrain.
    pub open spec fn tile_cost_spec(self, x: int, y: int) -> int {
        if self.in_bounds(x, y) {
            self.tiles@[self.idx_spec(x, y)].cost_spec()
        } else {
            -1
        }
    }

    pub fn tile_cost(&self, x: u32, y: u32) -> (r: isize)
        requires
            self.wf(),
        ensures
            r == self.tile_cost_spec(x as int, y as int),
    {
        if x >= self.width || y >= self.height {
            return -1;
        }
        let idx = self.tile_xy_idx(x, y);
        self.tiles[idx].cost()
    }

    /// The cost the pathfinding layer sees: -1 off the map, on impassable
    /// terrain, or under an obstacle feature; the terrain cost otherwise.
    pub open spec fn path_cost_spec(self, x: int, y: int) -> int {
        if !self.in_bounds(x, y) {
            -1
        } else if self.feature_at_spec(x, y) matches Some(f) && f.is_obstacle_spec() {
            -1
        } else {
            self.tiles@[self.idx_spec(x, y)].cost_spec()
        }
    }

    pub fn path_cost(&self, x: usize, y: usize) -> (r: isize)
        requires
            self.wf(),
        ensures
            r == self.path_cost_spec(x as int, y as int),
    {
        if x >= self.width as usize || y >= self.height as usize {
            return -1;
        }
        let xu = x as u32;
        let yu = y as u32;
        match self.feature_at(xu, yu) {
            Some(f) => {
                if f.is_obstacle() {
                    -1
                } else {
                    let idx = self.tile_xy_idx(xu, yu);
                    self.tiles[idx].cost()
                }
            },
            None => {
                let idx = self.tile_xy_idx(xu, yu);
                self.tiles[idx].cost()
            },
        }
    }

    /// The whole cost layer as one row-major sequence; this is what the
    /// path cache must stay synchronized with.
    pub open spec fn cost_grid(self) -> Seq<int> {
        Seq::new(
            (self.area()) as nat,
            |i: int| self.path_cost_spec(i % self.width as int, i / self.width as int),
        )
    }

    /// A tile can be walked on: on the map, terrain passable, and no
    /// obstacle feature on it.
    pub open spec fn is_passable_spec(self, x: int, y: int) -> bool {
        &&& self.in_bounds(x, y)
        &&& !self.tiles@[self.idx_spec(x, y)].is_obstacle_spec()
        &&& !(self.feature_at_spec(x, y) matches Some(f) && f.is_obstacle_spec())
    }

    pub fn is_passable(&self, x: u32, y: u32) -> (r: bool)
        requires
            self.wf(),
        ensures
            r == self.is_passable_spec(x as int, y as int),
    {
        if x >= self.width || y >= self.height {
            return false;
        }
        let idx = self.tile_xy_idx(x, y);
        match self.features[idx] {
            Some(feature) => {
                if feature.is_obstacle() {
                    false
                } else {
                    !self.tiles[idx].is_obstacle()
                }
            },
            None => !self.tiles[idx].is_obstacle(),
        }
    }

    /// Passability is exactly a positive pathfinding cost.
    pub proof fn lemma_passable_iff_positive_cost(self, x: int, y: int)
        requires
            self.wf(),
        ensures
            self.is_passable_spec(x, y) <==> self.path_cost_spec(x, y) > 0,
    {
        if self.in_bounds(x, y) {
            let b = self.tiles@[self.idx_spec(x, y)];
            assert(b.is_obstacle_spec() || 100 <= b.cost_spec() <= 170);
        }
    }

    /// Some tile adjacent to (x, y) is passable; the target itself need not
    /// be (a tree is chopped from beside it).
    pub open spec fn is_neighbor_passable_spec(self, x: int, y: int) -> bool {
        exists|cx: int, cy: int|
            self.neighborhood.is_candidate(x, y, cx, cy) && self.is_passable_spec(cx, cy)
    }

    pub fn is_neighbor_passable(&self, x: u32, y: u32) -> (r: bool)
        requires
            self.wf(),
        ensures
            r == self.is_neighbor_passable_spec(x as int, y as int),
    {
        proof {
            self.neighborhood.lemma_nb_list_characterization(x as int, y as int);
        }
        if x > self.width || y > self.height {
            proof {
                assert forall|cx: int, cy: int|
                    !(self.neighborhood.is_candidate(x as int, y as int, cx, cy)
                        && self.is_passable_spec(cx, cy)) by {
                    if self.neighborhood.is_candidate(x as int, y as int, cx, cy) {
                        assert(cx >= x - 1 && cy >= y - 1);
                    }
                }
            }
            return false;
        }
        let mut tiles: Vec<(usize, usize)> = Vec::new();
        self.neighborhood.get_all_neighbors((x as usize, y as usize), &mut tiles);
        let ghost l = self.neighborhood.nb_list(x as int, y as int);
        proof {
            assert(tiles@ =~= l);
        }
        let mut i: usize = 0;
        while i < tiles.len()
            invariant
                self.wf(),
                l == self.neighborhood.nb_list(x as int, y as int),
                tiles@ == l,
                i <= tiles@.len(),
                forall|j: int|
                    0 <= j < i ==> !self.is_passable_spec(
                        #[trigger] tiles@[j].0 as int,
                        tiles@[j].1 as int,
                    ),
            decreases tiles@.len() - i,
        {
            let t = tiles[i];
            proof {
                self.neighborhood.lemma_nb_list_characterization(x as int, y as int);
                assert(self.neighborhood.nb_list(x as int, y as int)[i as int] == t);
                assert(self.neighborhood.is_candidate(x as int, y as int, t.0 as int, t.1 as int));
            }
            if self.is_passable(t.0 as u32, t.1 as u32) {
                return true;
            }
            i = i + 1;
        }
        proof {
            self.neighborhood.lemma_nb_list_characterization(x as int, y as int);
            assert forall|cx: int, cy: int|
                !(self.neighborhood.is_candidate(x as int, y as int, cx, cy)
                    && self.is_passable_spec(cx, cy)) by {
                if self.neighborhood.is_candidate(x as int, y as int, cx, cy) {
                    assert(l.contains(((cx as usize, cy as usize))));
                    let j = choose|j: int| 0 <= j < l.len() && l[j] == (cx as usize, cy as usize);
                    assert(!self.is_passable_spec(l[j].0 as int, l[j].1 as int));
                }
            }
        }
        false
    }

    /// Overwrites the terrain of an in-bounds tile; generation uses this to
    /// populate the map before play starts.
    pub fn set_terrain(&mut self, x: u32, y: u32, biome: Biomes)
        requires
            old(self).wf(),
            old(self).in_bounds(x as int, y as int),
        ensures
            final(self).wf(),
            final(self).width == old(self).width,
            final(self).height == old(self).height,
            final(self).features == old(self).features,
            final(self).tiles@ == old(self).tiles@.update(
                old(self).idx_spec(x as int, y as int),
                biome,
            ),
    {
        let idx = self.tile_xy_idx(x, y);
        self.tiles[idx] = biome;
    }

    /// The one mutator of the feature layer. Whenever the change can alter
    /// passability or cost, the caller must notify the path cache of this
    /// tile before trusting any further path query.
    pub fn set_feature(&mut self, x: u32, y: u32, feature: Option<Features>)
        requires
            old(self).wf(),
            old(self).in_bounds(x as int, y as int),
        ensures
            final(self).wf(),
            final(self).width == old(self).width,
            final(self).height == old(self).height,
            final(self).tiles == old(self).tiles,
            final(self).neighborhood == old(self).neighborhood,
            final(self).features@ == old(self).features@.update(
                old(self).idx_spec(x as int, y as int),
                feature,
            ),
            final(self).feature_at_spec(x as int, y as int) == feature,
            forall|ox: int, oy: int|
                final(self).in_bounds(ox, oy) && !(ox == x && oy == y)
                    ==> final(self).feature_at_spec(ox, oy) == old(self).feature_at_spec(ox, oy),
    {
        let idx = self.tile_xy_idx(x, y);
        self.features[idx] = feature;
        proof {
            assert forall|ox: int, oy: int|
                self.in_bounds(ox, oy) && !(ox == x && oy == y) implies self.feature_at_spec(
                ox,
                oy,
            ) == old(self).feature_at_spec(ox, oy) by {
                lemma_idx_bound(self.width as int, self.height as int, ox, oy);
                lemma_idx_bound(self.width as int, self.height as int, x as int, y as int);
                lemma_idx_injective(self.width as int, self.height as int, ox, oy, x as int, y as int);
            }
        }
    }
}

/// The row-major index of an in-bounds coordinate is below the area.
pub proof fn lemma_idx_bound(w: int, h: int, x: int, y: int)
    requires
        0 <= x < w,
        0 <= y < h,
    ensures
        0 <= y * w + x < w * h,
{
    assert(y * w + x < w * h) by (nonlinear_arith)
        requires
            0 <= x < w,
            0 <= y < h,
    ;
    assert(y * w + x >= 0) by (nonlinear_arith)
        requires
            0 <= x,
            0 <= y,
            0 < w,
    ;
}

/// Splitting an index below the area yields an in-bounds coordinate that
/// maps back to the same index.
pub proof fn lemma_idx_split(w: int, h: int, idx: int)
    requires
        0 <= idx < w * h,
        0 <= w,
        0 <= h,
    ensures
        0 <= idx % w < w,
        0 <= idx / w < h,
        (idx / w) * w + (idx % w) == idx,
{
    assert(w > 0) by (nonlinear_arith)
        requires
            0 <= idx < w * h,
            0 <= w,
    ;
    vstd::arithmetic::div_mod::lemma_fundamental_div_mod(idx, w);
    vstd::arithmetic::div_mod::lemma_mod_bound(idx, w);
    vstd::arithmetic::div_mod::lemma_div_pos_is_pos(idx, w);
    vstd::arithmetic::mul::lemma_mul_is_commutative(w, idx / w);
    assert(idx / w < h) by (nonlinear_arith)
        requires
            idx < w * h,
            w > 0,
            idx == w * (idx / w) + (idx % w),
            0 <= idx % w < w,
            0 <= idx / w,
    ;
}

/// Distinct in-bounds coordinates have distinct row-major indexes.
pub proof fn lemma_idx_injective(w: int, h: int, x1: int, y1: int, x2: int, y2: int)
    requires
        0 <= x1 < w,
        0 <= y1 < h,
        0 <= x2 < w,
        0 <= y2 < h,
        !(x1 == x2 && y1 == y2),
    ensures
        y1 * w + x1 != y2 * w + x2,
{
    assert(y1 * w + x1 != y2 * w + x2) by (nonlinear_arith)
        requires
            0 <= x1 < w,
            0 <= y1 < h,
            0 <= x2 < w,
            0 <= y2 < h,
            !(x1 == x2 && y1 == y2),
    ;
}

/// Coordinate round-trip: converting an in-bounds coordinate to its index
/// and back is the identity, and so is the other direction.
pub proof fn lemma_tile_index_round_trip(m: GridMap, x: int, y: int, idx: int)
    requires
        m.wf(),
        m.in_bounds(x, y),
        0 <= idx < m.area(),
    ensures
        m.idx_spec(x, y) % (m.width as int) == x,
        m.idx_spec(x, y) / (m.width as int) == y,
        m.idx_spec(idx % (m.width as int), idx / (m.width as int)) == idx,
{
    let w = m.width as int;
    lemma_idx_bound(w, m.height as int, x, y);
    vstd::arithmetic::div_mod::lemma_fundamental_div_mod_converse(y * w + x, w, y, x);
    lemma_idx_split(w, m.height as int, idx);
}

} // verus!
