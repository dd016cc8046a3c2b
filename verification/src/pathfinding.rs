//! The hierarchical path cache over the grid map, with verified validation
//! of every path it hands out.
//!
//! The cache itself comes from an outside crate and is opaque here; its
//! state is named by `cache_grid`, the cost layer it was last built or
//! repaired against. Every public path query validates the returned
//! waypoints against the live map, so callers get paths that are known
//! adjacent-chained and passable at query time whatever the cache did.

use vstd::prelude::*;

use crate::map::GridMap;
use crate::tile::{is_neighbor, is_neighbor_spec, TilePos};

verus! {

/// The chunked connectivity index of the outside pathfinding crate. Opaque
/// to verification: only the named `cache_grid` / `cache_width` /
/// `cache_height` and the trusted wrappers below speak about it.
#[verifier::external_body]
pub struct PathCacheHandle {
    cache: hierarchical_pathfinding::PathCache<
        hierarchical_pathfinding::neighbors::MooreNeighborhood,
    >,
}

/// The row-major cost layer the cache was last built or repaired against.
pub uninterp spec fn cache_grid(c: PathCacheHandle) -> Seq<int>;

/// The grid width the cache was built for.
pub uninterp spec fn cache_width(c: PathCacheHandle) -> int;

/// The grid height the cache was built for.
pub uninterp spec fn cache_height(c: PathCacheHandle) -> int;

/// Relies on hierarchical_pathfinding::PathCache::new: builds the chunked
/// connectivity index for a (width, height) grid, reading every tile's cost
/// once through the supplied cost function (negative cost marks a solid
/// tile).
#[verifier::external_body]
fn cache_new(map: &GridMap) -> (r: PathCacheHandle)
    requires
        map.wf(),
        map.width >= 1,
        map.height >= 1,
    ensures
        cache_width(r) == map.width as int,
        cache_height(r) == map.height as int,
        cache_grid(r) == map.cost_grid(),
{
    let cache = hierarchical_pathfinding::PathCache::new(
        (map.width as usize, map.height as usize),
        |p: (usize, usize)| map.path_cost(p.0, p.1),
        hierarchical_pathfinding::neighbors::MooreNeighborhood::new(
            map.width as usize,
            map.height as usize,
        ),
        hierarchical_pathfinding::PathCacheConfig::with_chunk_size(30),
    );
    PathCacheHandle { cache }
}

/// Relies on PathCache::find_path and AbstractPath::resolve: queries the
/// cache between two on-map tiles and materializes the returned waypoints
/// (the tiles after `start`, ending at `goal`). The cache must be
/// synchronized with the map's current costs; nothing else is assumed of
/// the outcome, which the caller validates.
#[verifier::external_body]
fn cache_find_path(c: &PathCacheHandle, map: &GridMap, start: TilePos, goal: TilePos) -> (r:
    Option<Vec<TilePos>>)
    requires
        map.wf(),
        map.in_bounds(start.x as int, start.y as int),
        map.in_bounds(goal.x as int, goal.y as int),
        cache_width(*c) == map.width as int,
        cache_height(*c) == map.height as int,
        cache_grid(*c) == map.cost_grid(),
{
    let found = c.cache.find_path(
        (start.x as usize, start.y as usize),
        (goal.x as usize, goal.y as usize),
        |p: (usize, usize)| map.path_cost(p.0, p.1),
    );
    found.map(
        |path| path.resolve(|p: (usize, usize)| map.path_cost(p.0, p.1)).into_iter().map(
            |p: (usize, usize)| TilePos { x: p.0 as u32, y: p.1 as u32 },
        ).collect(),
    )
}

/// Relies on PathCache::tiles_changed: re-reads the cost function around
/// the changed tile and repairs the affected chunk's connectivity. Sound
/// only when every other tile still carries the cost the cache knows,
/// which the precondition demands.
#[verifier::external_body]
fn cache_tiles_changed(c: &mut PathCacheHandle, map: &GridMap, x: u32, y: u32)
    requires
        map.wf(),
        map.in_bounds(x as int, y as int),
        cache_width(*old(c)) == map.width as int,
        cache_height(*old(c)) == map.height as int,
        cache_grid(*old(c)).len() == map.cost_grid().len(),
        forall|i: int|
            0 <= i < map.cost_grid().len() && i != map.idx_spec(x as int, y as int) ==> cache_grid(
                *old(c),
            )[i] == map.cost_grid()[i],
    ensures
        cache_width(*final(c)) == cache_width(*old(c)),
        cache_height(*final(c)) == cache_height(*old(c)),
        cache_grid(*final(c)) == map.cost_grid(),
{
    c.cache.tiles_changed(
        &[(x as usize, y as usize)],
        |p: (usize, usize)| map.path_cost(p.0, p.1),
    );
}

/// A chain of waypoints that can be walked right now: every waypoint is
/// passable on the map and every consecutive pair is (Chebyshev) adjacent.
pub open spec fn path_valid_spec(map: GridMap, p: Seq<TilePos>) -> bool {
    &&& forall|i: int|
        0 <= i < p.len() ==> map.is_passable_spec(#[trigger] p[i].x as int, p[i].y as int)
    &&& forall|i: int| 0 <= i < p.len() - 1 ==> is_neighbor_spec(#[trigger] p[i], p[i + 1])
}

/// Checks that every waypoint is passable right now and that consecutive
/// waypoints are adjacent.
pub fn validate_chain(map: &GridMap, p: &Vec<TilePos>) -> (r: bool)
    requires
        map.wf(),
    ensures
        r == path_valid_spec(*map, p@),
{
    let n = p.len();
    let mut i: usize = 0;
    while i < n
        invariant
            map.wf(),
            n == p@.len(),
            i <= n,
            forall|j: int|
                0 <= j < i ==> map.is_passable_spec(#[trigger] p@[j].x as int, p@[j].y as int),
            forall|j: int| 0 <= j < i && j < n - 1 ==> is_neighbor_spec(#[trigger] p@[j], p@[j + 1]),
        decreases n - i,
    {
        let w = p[i];
        if !map.is_passable(w.x, w.y) {
            return false;
        }
        if i + 1 < n {
            if !is_neighbor(&w, &p[i + 1]) {
                return false;
            }
        }
        i = i + 1;
    }
    true
}

/// Checks that a candidate waypoint list is a currently-valid path from
/// `start` to `goal`: starts at `start`, ends at `goal`, all waypoints
/// passable, consecutive waypoints adjacent.
pub fn validate_path(map: &GridMap, p: &Vec<TilePos>, start: TilePos, goal: TilePos) -> (r: bool)
    requires
        map.wf(),
    ensures
        r == (path_valid_spec(*map, p@) && p@.len() >= 1 && p@[0] == start && p@[p@.len() - 1]
            == goal),
{
    let n = p.len();
    if n == 0 {
        return false;
    }
    let first = p[0];
    if !(first.x == start.x && first.y == start.y) {
        return false;
    }
    let last = p[n - 1];
    if !(last.x == goal.x && last.y == goal.y) {
        return false;
    }
    validate_chain(map, p)
}

/// The pathfinding layer over one grid map: owns the cache and answers
/// point-to-point path queries.
pub struct MapPathfinding {
    pub path_cache: PathCacheHandle,
}

impl MapPathfinding {
    /// The cache agrees with the map's current cost layer; every query and
    /// every notification demands and preserves this.
    pub open spec fn synced(self, map: GridMap) -> bool {
        &&& cache_width(self.path_cache) == map.width as int
        &&& cache_height(self.path_cache) == map.height as int
        &&& cache_grid(self.path_cache) == map.cost_grid()
    }

    /// Builds the cache for a finished map; one-time cost proportional to
    /// the map area.
    pub fn new(map: &GridMap) -> (r: MapPathfinding)
        requires
            map.wf(),
            map.width >= 1,
            map.height >= 1,
        ensures
            r.synced(*map),
    {
        MapPathfinding { path_cache: cache_new(map) }
    }

    /// Queries the cache for a path and validates the answer against the
    /// live map: any returned path starts at `start_tile`, ends at
    /// `goal_tile`, chains adjacent waypoints, and runs over tiles that are
    /// all passable at query time. No path (a disconnected goal, or an
    /// answer that fails validation) is a normal outcome, not an error.
    pub fn get_path(&self, map: &GridMap, start_tile: TilePos, goal_tile: TilePos) -> (r: Option<
        Vec<TilePos>,
    >)
        requires
            map.wf(),
            self.synced(*map),
            map.in_bounds(start_tile.x as int, start_tile.y as int),
            map.in_bounds(goal_tile.x as int, goal_tile.y as int),
        ensures
            r matches Some(p) ==> {
                &&& path_valid_spec(*map, p@)
                &&& p@.len() >= 1
                &&& p@[0] == start_tile
                &&& p@[p@.len() - 1] == goal_tile
            },
    {
        match cache_find_path(&self.path_cache, map, start_tile, goal_tile) {
            None => None,
            Some(steps) => {
                let mut full: Vec<TilePos> = Vec::new();
                full.push(start_tile);
                let mut k: usize = 0;
                while k < steps.len()
                    invariant
                        full@.len() == k + 1,
                        k <= steps@.len(),
                    decreases steps@.len() - k,
                {
                    full.push(steps[k]);
                    k = k + 1;
                }
                if validate_path(map, &full, start_tile, goal_tile) {
                    Some(full)
                } else {
                    None
                }
            },
        }
    }

    /// Repairs the cache after the map's cost changed at one tile. Must be
    /// called for every mutation that can change passability or cost
    /// before the next path query is trusted; the mutation and this call
    /// belong to the same logical step.
    pub fn announce_tile_changed(&mut self, map: &GridMap, tile: &TilePos)
        requires
            map.wf(),
            map.in_bounds(tile.x as int, tile.y as int),
            cache_width(old(self).path_cache) == map.width as int,
            cache_height(old(self).path_cache) == map.height as int,
            cache_grid(old(self).path_cache).len() == map.cost_grid().len(),
            forall|i: int|
                0 <= i < map.cost_grid().len() && i != map.idx_spec(tile.x as int, tile.y as int)
                    ==> cache_grid(old(self).path_cache)[i] == map.cost_grid()[i],
        ensures
            final(self).synced(*map),
    {
        cache_tiles_changed(&mut self.path_cache, map, tile.x, tile.y);
    }
}

/// No valid path crosses an impassable tile: once a mutation has made a
/// tile impassable (and the cache was notified, so queries again validate
/// against the live map), no returned path can use that tile.
pub proof fn lemma_invalidation(map: GridMap, p: Seq<TilePos>, t: TilePos)
    requires
        path_valid_spec(map, p),
        !map.is_passable_spec(t.x as int, t.y as int),
    ensures
        forall|i: int| 0 <= i < p.len() ==> p[i] != t,
{
    assert forall|i: int| 0 <= i < p.len() implies p[i] != t by {
        assert(map.is_passable_spec(p[i].x as int, p[i].y as int));
    }
}

/// Changing the feature layer at one tile changes the pathfinding cost
/// layer at most at that tile's index.
pub proof fn lemma_cost_grid_one_tile(m0: GridMap, m1: GridMap, x: int, y: int)
    requires
        m0.wf(),
        m1.wf(),
        m0.in_bounds(x, y),
        m1.width == m0.width,
        m1.height == m0.height,
        m1.tiles == m0.tiles,
        m1.features@ == m0.features@.update(m0.idx_spec(x, y), m1.features@[m0.idx_spec(x, y)]),
    ensures
        m1.cost_grid().len() == m0.cost_grid().len(),
        forall|i: int|
            0 <= i < m0.cost_grid().len() && i != m0.idx_spec(x, y) ==> m0.cost_grid()[i]
                == m1.cost_grid()[i],
{
    let w = m0.width as int;
    let h = m0.height as int;
    assert forall|i: int|
        0 <= i < m0.cost_grid().len() && i != m0.idx_spec(x, y) implies m0.cost_grid()[i]
        == m1.cost_grid()[i] by {
        crate::map::lemma_idx_split(w, h, i);
        let cx = i % w;
        let cy = i / w;
        if m0.in_bounds(cx, cy) {
            crate::map::lemma_idx_injective(w, h, cx, cy, x, y);
            crate::map::lemma_idx_bound(w, h, x, y);
            assert(m1.features@[m0.idx_spec(cx, cy)] == m0.features@[m0.idx_spec(cx, cy)]);
        }
    }
}

} // verus!
