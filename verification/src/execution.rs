//! Job execution: the terminal mutations applied to the grid map when an
//! agent completes a work order, each paired with the path-cache
//! notification it needs so the two always change together.

use vstd::prelude::*;

use crate::features::Features;
use crate::jobs::{Job, Jobs};
use crate::map::GridMap;
use crate::pathfinding::{lemma_cost_grid_one_tile, MapPathfinding};
use crate::simulation::{fresh_growing, Growing};
use crate::tile::TilePos;

verus! {

/// A one-tile feature change that cannot alter the pathfinding cost layer
/// leaves the whole cost grid unchanged.
pub proof fn lemma_cost_grid_same(m0: GridMap, m1: GridMap, x: int, y: int)
    requires
        m0.wf(),
        m1.wf(),
        m0.in_bounds(x, y),
        m1.width == m0.width,
        m1.height == m0.height,
        m1.tiles == m0.tiles,
        m1.features@ == m0.features@.update(m0.idx_spec(x, y), m1.features@[m0.idx_spec(x, y)]),
        m1.path_cost_spec(x, y) == m0.path_cost_spec(x, y),
    ensures
        m1.cost_grid() == m0.cost_grid(),
{
    lemma_cost_grid_one_tile(m0, m1, x, y);
    let w = m0.width as int;
    let h = m0.height as int;
    assert forall|i: int| 0 <= i < m0.cost_grid().len() implies m0.cost_grid()[i]
        == m1.cost_grid()[i] by {
        if i == m0.idx_spec(x, y) {
            crate::map::lemma_idx_bound(w, h, x, y);
            crate::map::lemma_tile_index_round_trip(m0, x, y, i);
        }
    }
    assert(m0.cost_grid() =~= m1.cost_grid());
}

/// Completes a chop at a choppable feature's tile: the feature is replaced
/// by its stump variant, or removed entirely if it has none. When a stump
/// is left, a fresh regrowth timer for this tile is returned; the caller
/// keeps it and ticks it with `grow`. Chopping never changes passability
/// (neither choppable features nor stumps are obstacles), so the path
/// cache stays synchronized without notification.
pub fn do_chop(map: &mut GridMap, paths: &MapPathfinding, chop_target_pos: &TilePos) -> (r: Option<
    Growing,
>)
    requires
        old(map).wf(),
        old(map).in_bounds(chop_target_pos.x as int, chop_target_pos.y as int),
        paths.synced(*old(map)),
        old(map).feature_at_spec(chop_target_pos.x as int, chop_target_pos.y as int) matches Some(f)
            && f.is_choppable_spec(),
    ensures
        final(map).wf(),
        final(map).width == old(map).width,
        final(map).height == old(map).height,
        final(map).tiles == old(map).tiles,
        paths.synced(*final(map)),
        final(map).feature_at_spec(chop_target_pos.x as int, chop_target_pos.y as int) == old(
            map,
        ).feature_at_spec(chop_target_pos.x as int, chop_target_pos.y as int)->Some_0.stump_spec(),
        forall|ox: int, oy: int|
            final(map).in_bounds(ox, oy) && !(ox == chop_target_pos.x as int && oy
                == chop_target_pos.y as int) ==> final(map).feature_at_spec(ox, oy) == old(
                map,
            ).feature_at_spec(ox, oy),
        r == if old(map).feature_at_spec(
            chop_target_pos.x as int,
            chop_target_pos.y as int,
        )->Some_0.stump_spec() is Some {
            Some(fresh_growing())
        } else {
            None::<Growing>
        },
{
    let x = chop_target_pos.x;
    let y = chop_target_pos.y;
    let current = map.feature_at(x, y);
    let next_feature = match current {
        Some(f) => f.stump(),
        None => None,
    };
    map.set_feature(x, y, next_feature);
    proof {
        lemma_cost_grid_same(*old(map), *map, x as int, y as int);
    }
    match next_feature {
        Some(_) => Some(Growing::new()),
        None => None,
    }
}

/// Completes a mine: the feature is removed and the path cache is told,
/// since mined features may have blocked the tile.
pub fn do_mine(map: &mut GridMap, map_pathfinding: &mut MapPathfinding, mine_target_pos: &TilePos)
    requires
        old(map).wf(),
        old(map).in_bounds(mine_target_pos.x as int, mine_target_pos.y as int),
        old(map_pathfinding).synced(*old(map)),
    ensures
        final(map).wf(),
        final(map).width == old(map).width,
        final(map).height == old(map).height,
        final(map).tiles == old(map).tiles,
        final(map_pathfinding).synced(*final(map)),
        final(map).feature_at_spec(mine_target_pos.x as int, mine_target_pos.y as int) is None,
        forall|ox: int, oy: int|
            final(map).in_bounds(ox, oy) && !(ox == mine_target_pos.x as int && oy
                == mine_target_pos.y as int) ==> final(map).feature_at_spec(ox, oy) == old(
                map,
            ).feature_at_spec(ox, oy),
{
    map.set_feature(mine_target_pos.x, mine_target_pos.y, None);
    proof {
        lemma_cost_grid_one_tile(
            *old(map),
            *map,
            mine_target_pos.x as int,
            mine_target_pos.y as int,
        );
    }
    map_pathfinding.announce_tile_changed(map, mine_target_pos);
}

/// Completes a build: the requested feature is placed on the target tile
/// and the path cache is told, since built features may block the tile.
pub fn do_build(
    map: &mut GridMap,
    map_pathfinding: &mut MapPathfinding,
    build_pos: &TilePos,
    feature: Features,
)
    requires
        old(map).wf(),
        old(map).in_bounds(build_pos.x as int, build_pos.y as int),
        old(map_pathfinding).synced(*old(map)),
    ensures
        final(map).wf(),
        final(map).width == old(map).width,
        final(map).height == old(map).height,
        final(map).tiles == old(map).tiles,
        final(map_pathfinding).synced(*final(map)),
        final(map).feature_at_spec(build_pos.x as int, build_pos.y as int) == Some(feature),
        forall|ox: int, oy: int|
            final(map).in_bounds(ox, oy) && !(ox == build_pos.x as int && oy == build_pos.y as int)
                ==> final(map).feature_at_spec(ox, oy) == old(map).feature_at_spec(ox, oy),
{
    map.set_feature(build_pos.x, build_pos.y, Some(feature));
    proof {
        lemma_cost_grid_one_tile(*old(map), *map, build_pos.x as int, build_pos.y as int);
    }
    map_pathfinding.announce_tile_changed(map, build_pos);
}

/// Completes a clear: the feature is removed and the path cache is told.
pub fn do_clear(map: &mut GridMap, map_pathfinding: &mut MapPathfinding, clear_pos: &TilePos)
    requires
        old(map).wf(),
        old(map).in_bounds(clear_pos.x as int, clear_pos.y as int),
        old(map_pathfinding).synced(*old(map)),
    ensures
        final(map).wf(),
        final(map).width == old(map).width,
        final(map).height == old(map).height,
        final(map).tiles == old(map).tiles,
        final(map_pathfinding).synced(*final(map)),
        final(map).feature_at_spec(clear_pos.x as int, clear_pos.y as int) is None,
        forall|ox: int, oy: int|
            final(map).in_bounds(ox, oy) && !(ox == clear_pos.x as int && oy == clear_pos.y as int)
                ==> final(map).feature_at_spec(ox, oy) == old(map).feature_at_spec(ox, oy),
{
    map.set_feature(clear_pos.x, clear_pos.y, None);
    proof {
        lemma_cost_grid_one_tile(*old(map), *map, clear_pos.x as int, clear_pos.y as int);
    }
    map_pathfinding.announce_tile_changed(map, clear_pos);
}

/// What the feature layer at the job's target holds after the job's
/// terminal mutation is applied.
pub open spec fn job_result_spec(before: Option<Features>, job_type: Jobs) -> Option<Features> {
    match job_type {
        Jobs::Chop => if before matches Some(f) && f.is_choppable_spec() {
            before->Some_0.stump_spec()
        } else {
            before
        },
        Jobs::Mine => if before matches Some(f) && f.is_mineable_spec() {
            None
        } else {
            before
        },
        Jobs::Build(f) => Some(f),
        Jobs::Clear => None,
    }
}

/// The regrowth a completed job starts: a chop that leaves a stump hands
/// back a fresh timer for the target tile, anything else none.
pub open spec fn job_growth_spec(before: Option<Features>, job_type: Jobs, pos: TilePos) -> Option<
    (TilePos, Growing),
> {
    if job_type == Jobs::Chop && (before matches Some(f) && f.is_choppable_spec()
        && f.stump_spec() is Some) {
        Some((pos, fresh_growing()))
    } else {
        None
    }
}

/// Applies a completed job's terminal mutation to exactly its target
/// tile: chop leaves a stump, mine and clear remove the feature, build
/// places one. Chop and mine act only when the feature there is actually
/// choppable or mineable (the order may have gone stale); the map and the
/// path cache always change together. A chop that leaves a stump returns
/// the regrowth record the caller must keep and tick.
pub fn execute_job(map: &mut GridMap, map_pathfinding: &mut MapPathfinding, job: &Job) -> (r:
    Option<(TilePos, Growing)>)
    requires
        old(map).wf(),
        old(map).in_bounds(job.position.x as int, job.position.y as int),
        old(map_pathfinding).synced(*old(map)),
    ensures
        final(map).wf(),
        final(map).width == old(map).width,
        final(map).height == old(map).height,
        final(map).tiles == old(map).tiles,
        final(map_pathfinding).synced(*final(map)),
        final(map).feature_at_spec(job.position.x as int, job.position.y as int)
            == job_result_spec(
            old(map).feature_at_spec(job.position.x as int, job.position.y as int),
            job.job_type,
        ),
        forall|ox: int, oy: int|
            final(map).in_bounds(ox, oy) && !(ox == job.position.x as int && oy == job.position.y
                as int) ==> final(map).feature_at_spec(ox, oy) == old(map).feature_at_spec(ox, oy),
        r == job_growth_spec(
            old(map).feature_at_spec(job.position.x as int, job.position.y as int),
            job.job_type,
            job.position,
        ),
{
    match job.job_type {
        Jobs::Chop => {
            let feature = map.feature_at(job.position.x, job.position.y);
            if let Some(f) = feature {
                if f.is_choppable() {
                    match do_chop(map, map_pathfinding, &job.position) {
                        Some(g) => Some((job.position, g)),
                        None => None,
                    }
                } else {
                    None
                }
            } else {
                None
            }
        },
        Jobs::Mine => {
            let feature = map.feature_at(job.position.x, job.position.y);
            if let Some(f) = feature {
                if f.is_mineable() {
                    do_mine(map, map_pathfinding, &job.position);
                }
            }
            None
        },
        Jobs::Build(feature) => {
            do_build(map, map_pathfinding, &job.position, feature);
            None
        },
        Jobs::Clear => {
            do_clear(map, map_pathfinding, &job.position);
            None
        },
    }
}

} // verus!
