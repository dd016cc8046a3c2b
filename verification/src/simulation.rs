//! Regrowth: chopped stumps grow back into their tree over time.

use vstd::prelude::*;

use crate::agent::FULL_PROGRESS;
use crate::map::GridMap;
use crate::pathfinding::MapPathfinding;
use crate::tile::TilePos;

verus! {

/// The regrowth state attached to a stump left by a chop: progress
/// accumulates by `speed` every simulation tick and the feature regrows
/// at 100 points.
#[derive(Clone, Copy, Debug, PartialEq, Eq, Structural)]
pub struct Growing {
    /// Progress added per tick, in thousandths of a point.
    pub speed: u32,
    /// Accumulated progress, in thousandths of a point.
    pub progress: u64,
}

/// The timer a fresh chop starts: default pace, no progress yet.
pub open spec fn fresh_growing() -> Growing {
    Growing { speed: 5, progress: 0 }
}

impl Growing {
    /// A fresh regrowth timer at the default pace.
    pub fn new() -> (r: Growing)
        ensures
            r == fresh_growing(),
            r.speed == 5,
            r.progress == 0,
    {
        Growing { speed: 5, progress: 0 }
    }
}

/// One regrowth tick for the timer on `tile`. While a regrowable stump
/// still stands there, progress accumulates by the timer's speed, and at
/// 100 points the stump turns back into its grown feature with the call
/// reporting completion. A timer whose tile no longer carries a
/// regrowable stump (something was built or cleared over it) ends at
/// once, leaving the map untouched; a finished or ended timer is to be
/// discarded. Regrowth never changes passability (stumps and their trees
/// are not obstacles), so the path cache stays synchronized.
pub fn grow(map: &mut GridMap, paths: &MapPathfinding, tile: TilePos, growing: &mut Growing) -> (r:
    bool)
    requires
        old(map).wf(),
        paths.synced(*old(map)),
        old(map).in_bounds(tile.x as int, tile.y as int),
    ensures
        final(map).wf(),
        final(map).width == old(map).width,
        final(map).height == old(map).height,
        final(map).tiles == old(map).tiles,
        paths.synced(*final(map)),
        final(growing).speed == old(growing).speed,
        ({
            let f = old(map).feature_at_spec(tile.x as int, tile.y as int);
            let p = old(growing).progress + old(growing).speed;
            if !(f matches Some(ft) && ft.regrown_spec() is Some) {
                &&& r == true
                &&& *final(map) == *old(map)
                &&& final(growing).progress == old(growing).progress
            } else if p >= FULL_PROGRESS {
                &&& r == true
                &&& final(map).feature_at_spec(tile.x as int, tile.y as int) == old(
                    map,
                ).feature_at_spec(tile.x as int, tile.y as int)->Some_0.regrown_spec()
                &&& forall|ox: int, oy: int|
                    final(map).in_bounds(ox, oy) && !(ox == tile.x as int && oy == tile.y as int)
                        ==> final(map).feature_at_spec(ox, oy) == old(map).feature_at_spec(ox, oy)
            } else {
                &&& r == false
                &&& *final(map) == *old(map)
                &&& final(growing).progress == p
            }
        }),
{
    let current = map.feature_at(tile.x, tile.y);
    let regrown = match current {
        Some(ft) => ft.regrown(),
        None => None,
    };
    if regrown.is_none() {
        return true;
    }
    let add = growing.speed as u64;
    if add >= FULL_PROGRESS || growing.progress >= FULL_PROGRESS - add {
        map.set_feature(tile.x, tile.y, regrown);
        proof {
            crate::execution::lemma_cost_grid_same(*old(map), *map, tile.x as int, tile.y as int);
        }
        true
    } else {
        growing.progress = growing.progress + add;
        false
    }
}

} // verus!
