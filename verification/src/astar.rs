//! Direct A* search over the grid, the non-cached variant of path queries:
//! verified successor and heuristic functions feed the outside search, and
//! the answer is validated against the live map before anyone sees it.

use vstd::prelude::*;

use crate::map::GridMap;
use crate::pathfinding::path_valid_spec;
use crate::tile::{is_neighbor, is_neighbor_spec, TilePos};

verus! {

/// Heuristic scale: the estimate deliberately over-estimates by this factor
/// to favor fewer node expansions over strict optimality.
pub const HEURISTIC_FACTOR: u32 = 2;

impl GridMap {
    /// The cost of stepping onto (tx, ty) coming from (fx, fy): the tile's
    /// pathfinding cost, charged at 145% for a diagonal step.
    pub open spec fn move_cost_spec(self, fx: int, fy: int, tx: int, ty: int) -> int {
        let c = self.path_cost_spec(tx, ty);
        if fx != tx && fy != ty {
            c * 145 / 100
        } else {
            c
        }
    }

    /// The passable successors of a tile, each with the cost of stepping
    /// onto it: every entry is an adjacent passable tile, and every
    /// adjacent passable tile appears.
    pub fn get_passable_neighbors(&self, x: u32, y: u32) -> (r: Vec<(TilePos, u32)>)
        requires
            self.wf(),
            x as int <= self.width as int,
            y as int <= self.height as int,
        ensures
            forall|k: int|
                0 <= k < r@.len() ==> {
                    &&& self.neighborhood.is_candidate(
                        x as int,
                        y as int,
                        #[trigger] r@[k].0.x as int,
                        r@[k].0.y as int,
                    )
                    &&& self.is_passable_spec(r@[k].0.x as int, r@[k].0.y as int)
                    &&& r@[k].1 == self.move_cost_spec(
                        x as int,
                        y as int,
                        r@[k].0.x as int,
                        r@[k].0.y as int,
                    )
                },
            forall|cx: int, cy: int|
                self.neighborhood.is_candidate(x as int, y as int, cx, cy)
                    && self.is_passable_spec(cx, cy) ==> exists|k: int|
                    0 <= k < r@.len() && #[trigger] r@[k].0.x == cx && r@[k].0.y == cy,
    {
        let mut tiles: Vec<(usize, usize)> = Vec::new();
        self.neighborhood.get_all_neighbors((x as usize, y as usize), &mut tiles);
        let ghost l = self.neighborhood.nb_list(x as int, y as int);
        proof {
            assert(tiles@ =~= l);
            self.neighborhood.lemma_nb_list_characterization(x as int, y as int);
        }
        let mut r: Vec<(TilePos, u32)> = Vec::new();
        let mut i: usize = 0;
        while i < tiles.len()
            invariant
                self.wf(),
                x <= self.width,
                y <= self.height,
                l == self.neighborhood.nb_list(x as int, y as int),
                tiles@ == l,
                i <= tiles@.len(),
                forall|k: int|
                    0 <= k < r@.len() ==> {
                        &&& self.neighborhood.is_candidate(
                            x as int,
                            y as int,
                            #[trigger] r@[k].0.x as int,
                            r@[k].0.y as int,
                        )
                        &&& self.is_passable_spec(r@[k].0.x as int, r@[k].0.y as int)
                        &&& r@[k].1 == self.move_cost_spec(
                            x as int,
                            y as int,
                            r@[k].0.x as int,
                            r@[k].0.y as int,
                        )
                    },
                forall|j: int|
                    0 <= j < i && self.is_passable_spec(
                        #[trigger] tiles@[j].0 as int,
                        tiles@[j].1 as int,
                    ) ==> exists|k: int|
                        0 <= k < r@.len() && #[trigger] r@[k].0.x == tiles@[j].0
                            && r@[k].0.y == tiles@[j].1,
            decreases tiles@.len() - i,
        {
            let t = tiles[i];
            proof {
                self.neighborhood.lemma_nb_list_characterization(x as int, y as int);
                assert(self.neighborhood.nb_list(x as int, y as int)[i as int] == t);
                assert(self.neighborhood.is_candidate(x as int, y as int, t.0 as int, t.1 as int));
            }
            let tx = t.0 as u32;
            let ty = t.1 as u32;
            if self.is_passable(tx, ty) {
                proof {
                    self.lemma_passable_iff_positive_cost(tx as int, ty as int);
                }
                let c = self.path_cost(t.0, t.1);
                let base: u32 = c as u32;
                let cost: u32 = if tx != x && ty != y {
                    base * 145 / 100
                } else {
                    base
                };
                let ghost r_before = r@;
                r.push((TilePos { x: tx, y: ty }, cost));
                proof {
                    assert(r@[r@.len() - 1].0.x == tiles@[i as int].0);
                    assert forall|j: int|
                        0 <= j < i && self.is_passable_spec(
                            #[trigger] tiles@[j].0 as int,
                            tiles@[j].1 as int,
                        ) implies exists|k: int|
                        0 <= k < r@.len() && #[trigger] r@[k].0.x == tiles@[j].0 && r@[k].0.y
                            == tiles@[j].1 by {
                        let k0 = choose|k0: int|
                            0 <= k0 < r_before.len() && #[trigger] r_before[k0].0.x == tiles@[j].0
                                && r_before[k0].0.y == tiles@[j].1;
                        assert(r@[k0].0.x == tiles@[j].0 && r@[k0].0.y == tiles@[j].1);
                    }
                }
            }
            i = i + 1;
        }
        proof {
            self.neighborhood.lemma_nb_list_characterization(x as int, y as int);
            assert forall|cx: int, cy: int|
                self.neighborhood.is_candidate(x as int, y as int, cx, cy) && self.is_passable_spec(
                    cx,
                    cy,
                ) implies exists|k: int|
                0 <= k < r@.len() && #[trigger] r@[k].0.x == cx && r@[k].0.y == cy by {
                assert(l.contains(((cx as usize, cy as usize))));
                let j = choose|j: int| 0 <= j < l.len() && l[j] == (cx as usize, cy as usize);
                assert(self.is_passable_spec(tiles@[j].0 as int, tiles@[j].1 as int));
            }
        }
        r
    }

    /// The octile-style A* heuristic toward `destination`, scaled by the
    /// deliberate over-estimation factor: 2 x (100 per axis of distance,
    /// 145 per diagonal pair).
    pub open spec fn astar_heuristic_spec(self, px: int, py: int, gx: int, gy: int) -> int {
        let dx = crate::tile::abs_diff_spec(px, gx);
        let dy = crate::tile::abs_diff_spec(py, gy);
        let m = if dx <= dy {
            dx
        } else {
            dy
        };
        (100 * (dx + dy) - 55 * m) * HEURISTIC_FACTOR
    }

    pub fn astar_heuristic(&self, p: &TilePos, destination: &TilePos) -> (r: u32)
        requires
            self.wf(),
            p.x as int <= self.width as int,
            p.y as int <= self.height as int,
            destination.x as int <= self.width as int,
            destination.y as int <= self.height as int,
        ensures
            r == self.astar_heuristic_spec(
                p.x as int,
                p.y as int,
                destination.x as int,
                destination.y as int,
            ),
    {
        let d_x = crate::tile::abs_diff_u32(p.x, destination.x);
        let d_y = crate::tile::abs_diff_u32(p.y, destination.y);
        let m = if d_x <= d_y {
            d_x
        } else {
            d_y
        };
        (100 * (d_x + d_y) - 55 * m) * HEURISTIC_FACTOR
    }
}

/// Whether a search node satisfies the goal: the destination itself, or any
/// of its neighbors when an approximate arrival is acceptable.
pub fn astar_success(p: &TilePos, destination: &TilePos, approximate: bool) -> (r: bool)
    ensures
        r == if approximate {
            is_neighbor_spec(*p, *destination)
        } else {
            *p == *destination
        },
{
    if approximate {
        is_neighbor(p, destination)
    } else {
        p.x == destination.x && p.y == destination.y
    }
}

/// The node list the outside A* search computes, or nothing when no
/// goal-satisfying tile is reachable. The search is deterministic (its
/// index map hashes with a fixed-key hasher and it draws no randomness),
/// so its answer is a function of the cost layer and dimensions it walks,
/// the start, the destination, and the approximate flag alone; nothing
/// further is assumed of the answer's shape, which verified code checks.
pub uninterp spec fn astar_result(
    grid: Seq<int>,
    width: int,
    start: TilePos,
    destination: TilePos,
    approximate: bool,
) -> Option<Seq<TilePos>>;

/// The largest map area the direct search accepts: the outside search
/// accumulates path costs in 32-bit integers, and this bound keeps even
/// a path over every tile at the dearest cost within range.
pub const MAX_ASTAR_AREA: usize = 4000000;

/// Relies on pathfinding::directed::astar::astar: searches from `start`
/// over the verified successor function toward the goal condition; the
/// returned node list begins at `start` and is named by `astar_result`.
/// Nothing more is assumed of it; the caller validates the answer.
#[verifier::external_body]
fn astar_search(map: &GridMap, start: &TilePos, destination: &TilePos, approximate: bool) -> (r:
    Option<Vec<TilePos>>)
    requires
        map.wf(),
        map.in_bounds(start.x as int, start.y as int),
        map.in_bounds(destination.x as int, destination.y as int),
        map.area() <= MAX_ASTAR_AREA,
    ensures
        match r {
            Some(p) => astar_result(
                map.cost_grid(),
                map.width as int,
                *start,
                *destination,
                approximate,
            ) == Some(p@),
            None => astar_result(
                map.cost_grid(),
                map.width as int,
                *start,
                *destination,
                approximate,
            ) is None,
        },
{
    pathfinding::directed::astar::astar(
        start,
        |p: &TilePos| map.get_passable_neighbors(p.x, p.y),
        |p: &TilePos| map.astar_heuristic(p, destination),
        |p: &TilePos| astar_success(p, destination, approximate),
    ).map(|found: (Vec<TilePos>, u32)| found.0)
}

/// Whether the search's named answer is a usable path: nonempty, from
/// `start` to the goal condition, valid on the live map.
pub open spec fn astar_answer_usable(
    map: GridMap,
    start: TilePos,
    destination: TilePos,
    approximate: bool,
) -> bool {
    astar_result(map.cost_grid(), map.width as int, start, destination, approximate) matches Some(
        p,
    ) && p.len() >= 1 && p[0] == start && (if approximate {
        is_neighbor_spec(p[p.len() - 1], destination)
    } else {
        p[p.len() - 1] == destination
    }) && path_valid_spec(map, p)
}

/// Computes a path by direct A* search and validates it: exactly when the
/// search's named answer is a usable path, that path is returned — it
/// starts at `start`, chains adjacent waypoints that are all passable at
/// query time, and ends at the destination (or any neighbor of it when
/// `approximate` holds). Waypoints are in traversal order, the start first.
pub fn get_path_passable(start: &TilePos, map: &GridMap, destination: &TilePos, approximate: bool)
    -> (r: Option<Vec<TilePos>>)
    requires
        map.wf(),
        map.in_bounds(start.x as int, start.y as int),
        map.in_bounds(destination.x as int, destination.y as int),
        map.area() <= MAX_ASTAR_AREA,
    ensures
        r is Some <==> astar_answer_usable(*map, *start, *destination, approximate),
        r matches Some(p) ==> {
            &&& Some(p@) == astar_result(
                map.cost_grid(),
                map.width as int,
                *start,
                *destination,
                approximate,
            )
            &&& path_valid_spec(*map, p@)
            &&& p@.len() >= 1
            &&& p@[0] == *start
            &&& if approximate {
                is_neighbor_spec(p@[p@.len() - 1], *destination)
            } else {
                p@[p@.len() - 1] == *destination
            }
        },
{
    match astar_search(map, start, destination, approximate) {
        None => None,
        Some(path) => {
            if path.len() == 0 {
                return None;
            }
            let first = path[0];
            if !(first.x == start.x && first.y == start.y) {
                return None;
            }
            let last = path[path.len() - 1];
            if !astar_success(&last, destination, approximate) {
                return None;
            }
            if crate::pathfinding::validate_chain(map, &path) {
                Some(path)
            } else {
                None
            }
        },
    }
}

} // verus!
