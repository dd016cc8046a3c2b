//! Movement: fixed-point world positions, the per-tick stepping rule, and
//! path computation for a destination (exact or approximate).
//!
//! Positions are held in thousandths of a tile, so all stepping arithmetic
//! is exact integer math: an agent moves each axis toward the current
//! waypoint's center by at most the tick's step length, never overshooting.

use vstd::prelude::*;

use crate::map::GridMap;
use crate::pathfinding::{path_valid_spec, MapPathfinding};
use crate::tile::{is_neighbor, is_neighbor_spec, TilePos};

verus! {

/// A world position in thousandths of a tile.
#[derive(Clone, Copy, Debug, PartialEq, Eq, Structural)]
pub struct Position {
    pub x: u64,
    pub y: u64,
}

/// The tile a position stands on.
pub open spec fn tile_of_spec(p: Position) -> TilePos {
    TilePos { x: (p.x as int / 1000) as u32, y: (p.y as int / 1000) as u32 }
}

/// The center of a tile, in position units.
pub open spec fn center_x_spec(t: TilePos) -> int {
    t.x * 1000 + 500
}

pub open spec fn center_y_spec(t: TilePos) -> int {
    t.y * 1000 + 500
}

impl Position {
    /// The position lies strictly inside the map's world rectangle.
    pub open spec fn on_map(self, map: GridMap) -> bool {
        self.x < map.width * 1000 && self.y < map.height * 1000
    }

    /// Standing at the center of the given tile.
    pub fn at_tile_center(t: TilePos) -> (r: Position)
        requires
            t.x < crate::neighborhood::MAX_GRID_DIM,
            t.y < crate::neighborhood::MAX_GRID_DIM,
        ensures
            r.x == center_x_spec(t),
            r.y == center_y_spec(t),
            tile_of_spec(r) == t,
    {
        let r = Position { x: (t.x as u64) * 1000 + 500, y: (t.y as u64) * 1000 + 500 };
        proof {
            assert(r.x as int / 1000 == t.x as int) by (nonlinear_arith)
                requires
                    r.x == t.x * 1000 + 500,
            ;
            assert(r.y as int / 1000 == t.y as int) by (nonlinear_arith)
                requires
                    r.y == t.y * 1000 + 500,
            ;
        }
        r
    }

    /// The tile this position stands on.
    pub fn tile(&self, map: &GridMap) -> (r: TilePos)
        requires
            map.wf(),
            self.on_map(*map),
        ensures
            r == tile_of_spec(*self),
            map.in_bounds(r.x as int, r.y as int),
    {
        proof {
            assert(self.x as int / 1000 < map.width as int) by (nonlinear_arith)
                requires
                    self.x < map.width * 1000,
            ;
            assert(self.y as int / 1000 < map.height as int) by (nonlinear_arith)
                requires
                    self.y < map.height * 1000,
            ;
        }
        TilePos { x: (self.x / 1000) as u32, y: (self.y / 1000) as u32 }
    }
}

/// An agent's walking speed, in thousandths of a tile per second.
#[derive(Clone, Copy, Debug, PartialEq, Eq, Structural)]
pub struct Speed {
    pub speed: u32,
}

impl Speed {
    pub fn new(speed: u32) -> (r: Speed)
        ensures
            r.speed == speed,
    {
        Speed { speed }
    }
}

/// A movement target: the named tile, or (when `approximate`) any tile
/// adjacent to it.
#[derive(Clone, Copy, Debug, PartialEq, Eq, Structural)]
pub struct Destination {
    pub destination: TilePos,
    pub approximate: bool,
}

impl Destination {
    pub fn new(destination: TilePos, approximate: bool) -> (r: Destination)
        ensures
            r.destination == destination,
            r.approximate == approximate,
    {
        Destination { destination, approximate }
    }
}

/// The in-progress traversal of a computed path: the waypoints, and the
/// index of the one currently being walked toward.
#[derive(Clone, Debug)]
pub struct MoveToDestination {
    pub path: Vec<TilePos>,
    pub next_idx: usize,
}

impl MoveToDestination {
    /// Every waypoint is on the map and the cursor is within the path.
    pub open spec fn wf(self, map: GridMap) -> bool {
        &&& self.next_idx <= self.path@.len()
        &&& forall|i: int|
            0 <= i < self.path@.len() ==> map.in_bounds(
                #[trigger] self.path@[i].x as int,
                self.path@[i].y as int,
            )
    }

    /// Starts traversing a path at its first waypoint.
    pub fn start(path: Vec<TilePos>, map: &GridMap) -> (r: MoveToDestination)
        requires
            map.wf(),
            forall|i: int|
                0 <= i < path@.len() ==> map.in_bounds(
                    #[trigger] path@[i].x as int,
                    path@[i].y as int,
                ),
        ensures
            r.wf(*map),
            r.path == path,
            r.next_idx == 0,
    {
        MoveToDestination { path, next_idx: 0 }
    }
}

/// What one movement tick concluded.
#[derive(Clone, Copy, Debug, PartialEq, Eq, Structural)]
pub enum MoveOutcome {
    /// Still walking toward the destination.
    Moving,
    /// The agent is (or counts as) arrived: the path is exhausted or
    /// blocked, and the agent stands adjacent to the destination.
    Arrived,
    /// The path is exhausted or blocked away from the destination.
    Failed,
}

/// One coordinate moved toward a target by at most `step`, never
/// overshooting.
pub open spec fn step_toward_spec(cur: int, target: int, step: int) -> int {
    if cur <= target {
        if target - cur <= step {
            target
        } else {
            cur + step
        }
    } else {
        if cur - target <= step {
            target
        } else {
            cur - step
        }
    }
}

pub fn step_toward(cur: u64, target: u64, step: u64) -> (r: u64)
    ensures
        r == step_toward_spec(cur as int, target as int, step as int),
        cur <= target ==> cur <= r <= target,
        cur >= target ==> target <= r <= cur,
{
    if cur <= target {
        if target - cur <= step {
            target
        } else {
            cur + step
        }
    } else {
        if cur - target <= step {
            target
        } else {
            cur - step
        }
    }
}

/// The step length of one tick: distance at `speed` over `dt_ms`
/// milliseconds, scaled down by the current tile's cost relative to the
/// baseline of 100 (dearer terrain is slower).
pub open spec fn step_len_spec(speed: int, dt_ms: int, cost: int) -> int {
    speed * dt_ms / (10 * cost)
}

pub fn step_len(speed: u32, dt_ms: u32, cost: isize) -> (r: u64)
    requires
        1 <= cost <= 1000,
    ensures
        r == step_len_spec(speed as int, dt_ms as int, cost as int),
{
    proof {
        assert((speed as int) * (dt_ms as int) <= 0xffff_ffff_ffff_ffff) by (nonlinear_arith)
            requires
                speed <= 0xffff_ffffu32,
                dt_ms <= 0xffff_ffffu32,
        ;
    }
    ((speed as u64) * (dt_ms as u64)) / (10 * (cost as u64))
}

/// The cost factor movement divides by: the current tile's terrain cost
/// when it is passable, the baseline otherwise (an agent standing on a
/// tile that turned impassable under it keeps walking at baseline speed).
pub open spec fn move_cost_factor(map: GridMap, t: TilePos) -> int {
    if map.tile_cost_spec(t.x as int, t.y as int) >= 1 {
        map.tile_cost_spec(t.x as int, t.y as int)
    } else {
        100
    }
}

/// What one movement tick concludes, as a function of its inputs: a walk
/// with no waypoint left or a blocked next waypoint ends (as an arrival
/// when the agent stands adjacent to the destination, as a failure
/// otherwise); any other walk keeps moving.
pub open spec fn move_outcome_spec(
    map: GridMap,
    dest: Destination,
    pos: Position,
    mv: MoveToDestination,
) -> MoveOutcome {
    let done = mv.next_idx >= mv.path@.len();
    let wp = mv.path@[mv.next_idx as int];
    let blocked = !done && !map.is_passable_spec(wp.x as int, wp.y as int);
    let near = is_neighbor_spec(tile_of_spec(pos), dest.destination);
    if done || blocked {
        if near {
            MoveOutcome::Arrived
        } else {
            MoveOutcome::Failed
        }
    } else {
        MoveOutcome::Moving
    }
}

/// The full step relation of one movement tick: on an ended walk nothing
/// moves; otherwise the position steps toward the current waypoint's
/// center (each axis by at most the step length, never overshooting) and
/// the cursor advances exactly when the center is reached.
pub open spec fn move_step_spec(
    map: GridMap,
    dest: Destination,
    speed: Speed,
    dt_ms: u32,
    pos0: Position,
    mv0: MoveToDestination,
    pos1: Position,
    mv1: MoveToDestination,
    r: MoveOutcome,
) -> bool {
    let done = mv0.next_idx >= mv0.path@.len();
    let wp = mv0.path@[mv0.next_idx as int];
    let blocked = !done && !map.is_passable_spec(wp.x as int, wp.y as int);
    &&& mv1.path == mv0.path
    &&& r == move_outcome_spec(map, dest, pos0, mv0)
    &&& if done || blocked {
        pos1 == pos0 && mv1 == mv0
    } else {
        let step = step_len_spec(
            speed.speed as int,
            dt_ms as int,
            move_cost_factor(map, tile_of_spec(pos0)),
        );
        let nx = step_toward_spec(pos0.x as int, center_x_spec(wp), step);
        let ny = step_toward_spec(pos0.y as int, center_y_spec(wp), step);
        &&& pos1.x == nx
        &&& pos1.y == ny
        &&& mv1.next_idx == if nx == center_x_spec(wp) && ny == center_y_spec(wp) {
            mv0.next_idx + 1
        } else {
            mv0.next_idx as int
        }
    }
}

/// One tick of walking a computed path toward `dest`; the new position,
/// cursor and outcome are exactly `move_step_spec` of the inputs.
pub fn move_to_destination(
    map: &GridMap,
    dest: &Destination,
    speed: &Speed,
    dt_ms: u32,
    pos: &mut Position,
    mv: &mut MoveToDestination,
) -> (r: MoveOutcome)
    requires
        map.wf(),
        old(pos).on_map(*map),
        old(mv).wf(*map),
    ensures
        final(pos).on_map(*map),
        final(mv).wf(*map),
        move_step_spec(*map, *dest, *speed, dt_ms, *old(pos), *old(mv), *final(pos), *final(mv), r),
{
    let actor_tile = pos.tile(map);
    if mv.next_idx >= mv.path.len() {
        if is_neighbor(&actor_tile, &dest.destination) {
            return MoveOutcome::Arrived;
        } else {
            return MoveOutcome::Failed;
        }
    }
    let wp = mv.path[mv.next_idx];
    if !map.is_passable(wp.x, wp.y) {
        if is_neighbor(&actor_tile, &dest.destination) {
            return MoveOutcome::Arrived;
        } else {
            return MoveOutcome::Failed;
        }
    }
    let cost = map.tile_cost(actor_tile.x, actor_tile.y);
    let factor: isize = if cost >= 1 {
        cost
    } else {
        100
    };
    let step = step_len(speed.speed, dt_ms, factor);
    let target = Position::at_tile_center(wp);
    let nx = step_toward(pos.x, target.x, step);
    let ny = step_toward(pos.y, target.y, step);
    proof {
        assert(center_x_spec(wp) < map.width as int * 1000) by (nonlinear_arith)
            requires
                (wp.x as int) < (map.width as int),
                center_x_spec(wp) == (wp.x as int) * 1000 + 500,
        ;
        assert(center_y_spec(wp) < map.height as int * 1000) by (nonlinear_arith)
            requires
                (wp.y as int) < (map.height as int),
                center_y_spec(wp) == (wp.y as int) * 1000 + 500,
        ;
    }
    pos.x = nx;
    pos.y = ny;
    if nx == target.x && ny == target.y {
        mv.next_idx = mv.next_idx + 1;
    }
    MoveOutcome::Moving
}

/// Computes a path for an agent standing on `actor_tile` toward `dest`.
///
/// Starting candidates are the agent's tile and its neighbors (the agent
/// may stand on a tile that is itself blocked). An exact destination is
/// tried first; when the destination allows approximate arrival, paths to
/// each of its neighbors are tried as well. Any returned path is valid on
/// the live map, begins on or next to the agent's tile, and ends on the
/// destination or (if approximate) one of its neighbors.
pub fn compute_path(
    map: &GridMap,
    paths: &MapPathfinding,
    actor_tile: TilePos,
    dest: &Destination,
) -> (r: Option<Vec<TilePos>>)
    requires
        map.wf(),
        paths.synced(*map),
        map.in_bounds(actor_tile.x as int, actor_tile.y as int),
        map.in_bounds(dest.destination.x as int, dest.destination.y as int),
    ensures
        r matches Some(p) ==> {
            &&& path_valid_spec(*map, p@)
            &&& p@.len() >= 1
            &&& is_neighbor_spec(p@[0], actor_tile)
            &&& if dest.approximate {
                is_neighbor_spec(p@[p@.len() - 1], dest.destination)
            } else {
                p@[p@.len() - 1] == dest.destination
            }
        },
        !dest.approximate && !map.is_passable_spec(
            dest.destination.x as int,
            dest.destination.y as int,
        ) ==> r is None,
{
    let mut starts: Vec<(usize, usize)> = Vec::new();
    starts.push((actor_tile.x as usize, actor_tile.y as usize));
    map.neighborhood.get_all_neighbors((actor_tile.x as usize, actor_tile.y as usize), &mut starts);
    proof {
        map.neighborhood.lemma_nb_list_characterization(actor_tile.x as int, actor_tile.y as int);
        assert(starts@[0] == (actor_tile.x as usize, actor_tile.y as usize));
        assert forall|i: int| 0 <= i < starts@.len() implies is_neighbor_spec(
            TilePos { x: #[trigger] starts@[i].0 as u32, y: starts@[i].1 as u32 },
            actor_tile,
        ) by {
            if i > 0 {
                let l = map.neighborhood.nb_list(actor_tile.x as int, actor_tile.y as int);
                assert(starts@[i] == l[i - 1]);
            }
        }
    }
    let dest_passable = map.is_passable(dest.destination.x, dest.destination.y);
    let mut si: usize = 0;
    while si < starts.len()
        invariant
            map.wf(),
            paths.synced(*map),
            dest_passable == map.is_passable_spec(
                dest.destination.x as int,
                dest.destination.y as int,
            ),
            forall|i: int|
                0 <= i < starts@.len() ==> is_neighbor_spec(
                    TilePos { x: #[trigger] starts@[i].0 as u32, y: starts@[i].1 as u32 },
                    actor_tile,
                ),
        decreases starts@.len() - si,
    {
        let s = starts[si];
        let s_tile = TilePos { x: s.0 as u32, y: s.1 as u32 };
        if dest_passable && map.is_passable(s_tile.x, s_tile.y) {
            match paths.get_path(map, s_tile, dest.destination) {
                Some(p) => {
                    return Some(p);
                },
                None => {},
            }
        }
        si = si + 1;
    }
    if !dest.approximate {
        return None;
    }
    let mut ends: Vec<(usize, usize)> = Vec::new();
    ends.push((dest.destination.x as usize, dest.destination.y as usize));
    map.neighborhood.get_all_neighbors(
        (dest.destination.x as usize, dest.destination.y as usize),
        &mut ends,
    );
    proof {
        map.neighborhood.lemma_nb_list_characterization(
            dest.destination.x as int,
            dest.destination.y as int,
        );
        assert(ends@[0] == (dest.destination.x as usize, dest.destination.y as usize));
        assert forall|i: int| 0 <= i < ends@.len() implies is_neighbor_spec(
            TilePos { x: #[trigger] ends@[i].0 as u32, y: ends@[i].1 as u32 },
            dest.destination,
        ) by {
            if i > 0 {
                let l = map.neighborhood.nb_list(
                    dest.destination.x as int,
                    dest.destination.y as int,
                );
                assert(ends@[i] == l[i - 1]);
            }
        }
    }
    let mut si2: usize = 0;
    while si2 < starts.len()
        invariant
            map.wf(),
            paths.synced(*map),
            forall|i: int|
                0 <= i < starts@.len() ==> is_neighbor_spec(
                    TilePos { x: #[trigger] starts@[i].0 as u32, y: starts@[i].1 as u32 },
                    actor_tile,
                ),
            forall|i: int|
                0 <= i < ends@.len() ==> is_neighbor_spec(
                    TilePos { x: #[trigger] ends@[i].0 as u32, y: ends@[i].1 as u32 },
                    dest.destination,
                ),
            dest.approximate,
        decreases starts@.len() - si2,
    {
        let s = starts[si2];
        let s_tile = TilePos { x: s.0 as u32, y: s.1 as u32 };
        if map.is_passable(s_tile.x, s_tile.y) {
            let mut ei: usize = 0;
            while ei < ends.len()
                invariant
                    map.wf(),
                    paths.synced(*map),
                    map.is_passable_spec(s_tile.x as int, s_tile.y as int),
                    is_neighbor_spec(s_tile, actor_tile),
                    forall|i: int|
                        0 <= i < ends@.len() ==> is_neighbor_spec(
                            TilePos { x: #[trigger] ends@[i].0 as u32, y: ends@[i].1 as u32 },
                            dest.destination,
                        ),
                    dest.approximate,
                decreases ends@.len() - ei,
            {
                let e = ends[ei];
                let e_tile = TilePos { x: e.0 as u32, y: e.1 as u32 };
                if map.is_passable(e_tile.x, e_tile.y) {
                    match paths.get_path(map, s_tile, e_tile) {
                        Some(p) => {
                            return Some(p);
                        },
                        None => {},
                    }
                }
                ei = ei + 1;
            }
        }
        si2 = si2 + 1;
    }
    None
}

} // verus!
