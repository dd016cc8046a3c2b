//! The agent behavior layer: needs (thirst), utility scorers, behavior
//! selection, and the single-step actions the behavior sequences execute.
//!
//! All quantities are fixed-point integers: progress and thirst in
//! thousandths of a point (a need or job completes at 100 points, that is
//! 100000), rates in thousandths of a point per second, time in
//! milliseconds.

use vstd::prelude::*;

use crate::jobs::{Job, JobQueue};
use crate::map::GridMap;
use crate::movement::{
    center_x_spec, center_y_spec, move_outcome_spec, move_step_spec, tile_of_spec, Destination,
    MoveOutcome, MoveToDestination, Position, Speed,
};
use crate::simulation::Growing;
use crate::tile::{is_neighbor, is_neighbor_spec, TilePos};

verus! {

/// A need or a job is complete at 100 points, held in thousandths.
pub const FULL_PROGRESS: u64 = 100000;

/// An agent's thirst: the current level, how fast it accumulates, and the
/// progress of the drink currently underway.
#[derive(Clone, Copy, Debug, PartialEq, Eq, Structural)]
pub struct Thirst {
    /// Rate of thirst accumulation, thousandths of a point per second.
    pub per_second: u32,
    /// Progress of the current drink, thousandths of a point.
    pub drink_progress: u64,
    /// Current thirst, thousandths of a point, at most 100 points.
    pub thirst: u64,
}

impl Thirst {
    pub open spec fn wf(self) -> bool {
        self.thirst <= FULL_PROGRESS && self.drink_progress <= FULL_PROGRESS
    }

    pub fn new(thirst: u64, per_second: u32) -> (r: Thirst)
        requires
            thirst <= FULL_PROGRESS,
        ensures
            r.thirst == thirst,
            r.per_second == per_second,
            r.drink_progress == 0,
            r.wf(),
    {
        Thirst { per_second, thirst, drink_progress: 0 }
    }
}

/// What `dt_ms` milliseconds add at `per_second` thousandths of a point
/// per second.
pub open spec fn accrual_spec(per_second: int, dt_ms: int) -> int {
    per_second * dt_ms / 1000
}

fn accrue(per_second: u32, dt_ms: u32) -> (r: u64)
    ensures
        r == accrual_spec(per_second as int, dt_ms as int),
{
    proof {
        assert((per_second as int) * (dt_ms as int) <= 0xffff_ffff_ffff_ffff) by (nonlinear_arith)
            requires
                per_second <= 0xffff_ffffu32,
                dt_ms <= 0xffff_ffffu32,
        ;
    }
    ((per_second as u64) * (dt_ms as u64)) / 1000
}

/// Thirst accumulates at the agent's rate and clamps at 100 points.
pub fn handle_thirst(thirst: &mut Thirst, dt_ms: u32)
    requires
        old(thirst).wf(),
    ensures
        final(thirst).wf(),
        final(thirst).per_second == old(thirst).per_second,
        final(thirst).drink_progress == old(thirst).drink_progress,
        final(thirst).thirst == if old(thirst).thirst + accrual_spec(
            old(thirst).per_second as int,
            dt_ms as int,
        ) <= FULL_PROGRESS {
            old(thirst).thirst + accrual_spec(old(thirst).per_second as int, dt_ms as int)
        } else {
            FULL_PROGRESS as int
        },
{
    let add = accrue(thirst.per_second, dt_ms);
    if add <= FULL_PROGRESS - thirst.thirst {
        thirst.thirst = thirst.thirst + add;
    } else {
        thirst.thirst = FULL_PROGRESS;
    }
}

/// The drinking action's configuration: how fast the agent drinks, in
/// thousandths of a point per second.
#[derive(Clone, Copy, Debug, PartialEq, Eq, Structural)]
pub struct Drink {
    pub per_second: u32,
}

/// What one drinking tick concluded.
#[derive(Clone, Copy, Debug, PartialEq, Eq, Structural)]
pub enum DrinkOutcome {
    /// Still drinking beside the water.
    Drinking,
    /// The drink caught up with the thirst: thirst reset to exactly 0.
    Done,
    /// The agent is not beside the water source.
    Failed,
}

/// What one drinking tick does, as a function of its inputs: away from
/// the water nothing changes and the step fails; beside it the drink
/// progress grows by the rate's accrual, and on reaching the current
/// thirst both reset to zero with the step succeeding.
pub open spec fn drink_model(
    t0: Thirst,
    conf: Drink,
    dt_ms: u32,
    actor: TilePos,
    water: TilePos,
) -> (Thirst, DrinkOutcome) {
    if !is_neighbor_spec(actor, water) {
        (t0, DrinkOutcome::Failed)
    } else {
        let p = t0.drink_progress + accrual_spec(conf.per_second as int, dt_ms as int);
        if p >= t0.thirst {
            (
                Thirst { per_second: t0.per_second, drink_progress: 0, thirst: 0 },
                DrinkOutcome::Done,
            )
        } else {
            (
                Thirst { per_second: t0.per_second, drink_progress: p as u64, thirst: t0.thirst },
                DrinkOutcome::Drinking,
            )
        }
    }
}

/// One tick of drinking; the new thirst and the outcome are exactly
/// `drink_model` of the inputs.
pub fn drink(
    thirst: &mut Thirst,
    drink_conf: &Drink,
    dt_ms: u32,
    actor_tile: TilePos,
    water_source_tile: TilePos,
) -> (r: DrinkOutcome)
    requires
        old(thirst).wf(),
    ensures
        final(thirst).wf(),
        (*final(thirst), r) == drink_model(
            *old(thirst),
            *drink_conf,
            dt_ms,
            actor_tile,
            water_source_tile,
        ),
{
    if !is_neighbor(&actor_tile, &water_source_tile) {
        return DrinkOutcome::Failed;
    }
    let add = accrue(drink_conf.per_second, dt_ms);
    if add >= thirst.thirst || thirst.drink_progress >= thirst.thirst - add {
        thirst.thirst = 0;
        thirst.drink_progress = 0;
        DrinkOutcome::Done
    } else {
        thirst.drink_progress = thirst.drink_progress + add;
        DrinkOutcome::Drinking
    }
}

/// Squared distance from a position to a tile's center, in position units.
pub open spec fn dist_sq_spec(pos: Position, t: TilePos) -> int {
    let dx = crate::tile::abs_diff_spec(pos.x as int, center_x_spec(t));
    let dy = crate::tile::abs_diff_spec(pos.y as int, center_y_spec(t));
    dx * dx + dy * dy
}

fn dist_sq(pos: &Position, t: &TilePos) -> (r: u64)
    requires
        pos.x <= 0x4000_0000,
        pos.y <= 0x4000_0000,
        t.x < crate::neighborhood::MAX_GRID_DIM,
        t.y < crate::neighborhood::MAX_GRID_DIM,
    ensures
        r == dist_sq_spec(*pos, *t),
{
    let cx: u64 = (t.x as u64) * 1000 + 500;
    let cy: u64 = (t.y as u64) * 1000 + 500;
    let dx: u64 = if pos.x >= cx {
        pos.x - cx
    } else {
        cx - pos.x
    };
    let dy: u64 = if pos.y >= cy {
        pos.y - cy
    } else {
        cy - pos.y
    };
    proof {
        assert((dx as int) * (dx as int) + (dy as int) * (dy as int) <= 0x8000_0000_0000_0000)
            by (nonlinear_arith)
            requires
                dx <= 0x4000_0000u64,
                dy <= 0x4000_0000u64,
        ;
    }
    dx * dx + dy * dy
}

/// The closest remaining water source, folded left to right: a later
/// source replaces the best so far only when strictly closer.
pub open spec fn closest_water_from(waters: Seq<TilePos>, pos: Position, best: TilePos) -> TilePos
    decreases waters.len(),
{
    if waters.len() == 0 {
        best
    } else {
        let b = if dist_sq_spec(pos, waters[0]) < dist_sq_spec(pos, best) {
            waters[0]
        } else {
            best
        };
        closest_water_from(waters.drop_first(), pos, b)
    }
}

/// The first-listed water source of minimal distance to the position.
pub open spec fn closest_water_spec(waters: Seq<TilePos>, pos: Position) -> TilePos
    recommends
        waters.len() > 0,
{
    closest_water_from(waters.drop_first(), pos, waters[0])
}

/// The first water source tile closest to the actor (ties keep the
/// earliest-listed source), or nothing when no water source exists.
pub fn find_closest_water_source(waters: &Vec<TilePos>, actor_position: &Position) -> (r: Option<
    TilePos,
>)
    requires
        actor_position.x <= 0x4000_0000,
        actor_position.y <= 0x4000_0000,
        forall|i: int|
            0 <= i < waters@.len() ==> (#[trigger] waters@[i].x) < crate::neighborhood::MAX_GRID_DIM
                && waters@[i].y < crate::neighborhood::MAX_GRID_DIM,
    ensures
        waters@.len() == 0 <==> r is None,
        r matches Some(t) ==> t == closest_water_spec(waters@, *actor_position),
        r matches Some(t) ==> exists|i: int|
            {
                &&& 0 <= i < waters@.len()
                &&& #[trigger] waters@[i] == t
                &&& forall|j: int|
                    0 <= j < waters@.len() ==> dist_sq_spec(*actor_position, t) <= dist_sq_spec(
                        *actor_position,
                        #[trigger] waters@[j],
                    )
                &&& forall|j: int|
                    0 <= j < i ==> dist_sq_spec(*actor_position, #[trigger] waters@[j])
                        > dist_sq_spec(*actor_position, t)
            },
{
    if waters.len() == 0 {
        return None;
    }
    let mut best: TilePos = waters[0];
    let ghost best_i: int = 0;
    let mut best_d: u64 = dist_sq(actor_position, &best);
    let mut i: usize = 1;
    proof {
        assert(waters@.skip(1) =~= waters@.drop_first());
    }
    while i < waters.len()
        invariant
            1 <= i <= waters@.len(),
            actor_position.x <= 0x4000_0000,
            actor_position.y <= 0x4000_0000,
            forall|k: int|
                0 <= k < waters@.len() ==> (#[trigger] waters@[k].x)
                    < crate::neighborhood::MAX_GRID_DIM && waters@[k].y
                    < crate::neighborhood::MAX_GRID_DIM,
            0 <= best_i < i,
            waters@[best_i] == best,
            best_d == dist_sq_spec(*actor_position, best),
            closest_water_from(waters@.skip(i as int), *actor_position, best)
                == closest_water_spec(waters@, *actor_position),
            forall|j: int|
                0 <= j < i ==> dist_sq_spec(*actor_position, #[trigger] waters@[j]) >= best_d,
            forall|j: int|
                0 <= j < best_i ==> dist_sq_spec(*actor_position, #[trigger] waters@[j]) > best_d,
        decreases waters@.len() - i,
    {
        let cand = waters[i];
        let d = dist_sq(actor_position, &cand);
        proof {
            let rest = waters@.skip(i as int);
            assert(rest[0] == waters@[i as int]);
            assert(rest.drop_first() =~= waters@.skip(i as int + 1));
        }
        if d < best_d {
            best = cand;
            best_d = d;
            proof {
                best_i = i as int;
            }
        }
        i = i + 1;
    }
    proof {
        assert(waters@[best_i] == best);
        assert(waters@.skip(i as int) =~= Seq::<TilePos>::empty());
    }
    Some(best)
}

/// The mutually exclusive high-level behaviors, in tie-breaking order.
#[derive(Clone, Copy, Debug, PartialEq, Eq, Structural)]
pub enum Behavior {
    Thirst,
    Work,
    Meander,
}

/// The meander fallback's fixed utility, in thousandths.
pub const MEANDER_SCORE: u32 = 500;

/// The work behavior's fixed utility when work is available, in
/// thousandths.
pub const WORK_SCORE: u32 = 800;

/// Thirst utility: the thirst level scaled to 0..=1000.
pub fn thirsty_scorer(thirst: &Thirst) -> (r: u32)
    requires
        thirst.wf(),
    ensures
        r == thirst.thirst as int / 100,
        r <= 1000,
{
    (thirst.thirst / 100) as u32
}

/// Work utility: fixed at 800 when the agent already holds a job or some
/// queued job is currently accessible, 0 otherwise.
pub fn job_available_scorer(has_job: bool, job_queue: &JobQueue, map: &GridMap) -> (r: u32)
    requires
        map.wf(),
    ensures
        r == if has_job || job_queue.any_accessible_spec(*map) {
            WORK_SCORE as int
        } else {
            0
        },
{
    if has_job || job_queue.any_job_accessible(map) {
        WORK_SCORE
    } else {
        0
    }
}

/// Which behavior the given scores select.
pub open spec fn select_spec(thirst_score: int, work_score: int) -> Behavior {
    if thirst_score >= work_score && thirst_score >= MEANDER_SCORE {
        Behavior::Thirst
    } else if work_score >= MEANDER_SCORE {
        Behavior::Work
    } else {
        Behavior::Meander
    }
}

/// Picks the behavior with the highest utility; ties go to the earlier
/// behavior in thirst > work > meander order. Meander's fixed utility
/// makes it the fallback.
pub fn select_behavior(thirst_score: u32, work_score: u32) -> (r: Behavior)
    ensures
        r == select_spec(thirst_score as int, work_score as int),
{
    if thirst_score >= work_score && thirst_score >= MEANDER_SCORE {
        Behavior::Thirst
    } else if work_score >= MEANDER_SCORE {
        Behavior::Work
    } else {
        Behavior::Meander
    }
}

/// The job an agent holds, with its accumulated progress in thousandths
/// of a point.
#[derive(Clone, Copy, Debug, PartialEq, Eq, Structural)]
pub struct HasJob {
    pub job: Job,
    pub progress: u64,
}

impl HasJob {
    pub fn new(job: Job) -> (r: HasJob)
        ensures
            r.job == job,
            r.progress == 0,
    {
        HasJob { job, progress: 0 }
    }
}

/// What one job-taking attempt does to the queue and the agent: an agent
/// that already holds a job keeps it and succeeds with the queue
/// untouched; otherwise the front job is claimed when its target is
/// workable from a neighboring tile, and an unworkable front job goes to
/// the back with the attempt failing (as it does on an empty queue).
pub open spec fn take_job_post(
    q0: Seq<Job>,
    map: GridMap,
    has_job: Option<HasJob>,
    r: (Option<HasJob>, bool),
    q1: Seq<Job>,
) -> bool {
    if has_job is Some {
        r == (has_job, true) && q1 == q0
    } else if q0.len() == 0 {
        r == (Option::<HasJob>::None, false) && q1 == q0
    } else if map.is_neighbor_passable_spec(q0[0].position.x as int, q0[0].position.y as int) {
        r == (Some(HasJob { job: q0[0], progress: 0u64 }), true) && q1 == q0.drop_first()
    } else {
        r == (Option::<HasJob>::None, false) && q1 == q0.drop_first().push(q0[0]) && q1.len()
            == q0.len()
    }
}

/// One attempt to take a job from the queue; see `take_job_post` for the
/// exact effect on the queue and on the agent's held job.
pub fn take_job(job_queue: &mut JobQueue, map: &GridMap, has_job: Option<HasJob>) -> (r: (
    Option<HasJob>,
    bool,
))
    requires
        map.wf(),
    ensures
        take_job_post(old(job_queue).jobs@, *map, has_job, r, final(job_queue).jobs@),
{
    if has_job.is_some() {
        return (has_job, true);
    }
    match job_queue.claim_accessible(map) {
        Some(job) => (Some(HasJob::new(job)), true),
        None => (None, false),
    }
}

/// The destination for a held job: its target tile, to be reached
/// exactly; movement already treats adjacency as arrival when the final
/// approach is blocked.
pub fn job_destination(has_job: &Option<HasJob>) -> (r: Option<Destination>)
    ensures
        match *has_job {
            Some(hj) => r == Some(
                Destination { destination: hj.job.position, approximate: false },
            ),
            None => r is None,
        },
{
    match has_job {
        Some(hj) => Some(Destination::new(hj.job.position, false)),
        None => None,
    }
}


/// What one job-working tick concluded.
#[derive(Clone, Copy, Debug, PartialEq, Eq, Structural)]
pub enum JobOutcome {
    /// Still working beside the target.
    Working,
    /// Progress crossed 100 points: the mutation was applied and the job
    /// released.
    Done,
    /// The agent is not beside the job's target.
    Failed,
}

/// The held job's progress after one tick of work.
pub open spec fn job_progress_after(hj: HasJob, dt_ms: u32) -> int {
    hj.progress + accrual_spec(hj.job.job_type.speed_spec(), dt_ms as int)
}

/// What one job-working tick concludes, as a function of its inputs:
/// failure away from the target, completion when progress crosses 100
/// points, more work otherwise.
pub open spec fn do_job_outcome_spec(actor: TilePos, hj: HasJob, dt_ms: u32) -> JobOutcome {
    if !is_neighbor_spec(actor, hj.job.position) {
        JobOutcome::Failed
    } else if job_progress_after(hj, dt_ms) >= FULL_PROGRESS {
        JobOutcome::Done
    } else {
        JobOutcome::Working
    }
}

/// The full relation of one job-working tick: the outcome follows
/// `do_job_outcome_spec`; failure and further work leave the map alone
/// (work advancing the held progress); completion applies the job's
/// terminal mutation to exactly the target tile, releases the job, and
/// hands back the regrowth record a stump-leaving chop starts.
pub open spec fn do_job_post(
    map0: GridMap,
    map1: GridMap,
    actor: TilePos,
    hj: HasJob,
    dt_ms: u32,
    r: (Option<HasJob>, JobOutcome, Option<(TilePos, Growing)>),
) -> bool {
    let px = hj.job.position.x as int;
    let py = hj.job.position.y as int;
    &&& r.1 == do_job_outcome_spec(actor, hj, dt_ms)
    &&& match do_job_outcome_spec(actor, hj, dt_ms) {
        JobOutcome::Failed => r.0 == Some(hj) && r.2 is None && map1 == map0,
        JobOutcome::Working => r.0 == Some(
            HasJob { job: hj.job, progress: job_progress_after(hj, dt_ms) as u64 },
        ) && r.2 is None && map1 == map0,
        JobOutcome::Done => {
            &&& r.0 is None
            &&& map1.feature_at_spec(px, py) == crate::execution::job_result_spec(
                map0.feature_at_spec(px, py),
                hj.job.job_type,
            )
            &&& forall|ox: int, oy: int|
                map1.in_bounds(ox, oy) && !(ox == px && oy == py) ==> map1.feature_at_spec(ox, oy)
                    == map0.feature_at_spec(ox, oy)
            &&& r.2 == crate::execution::job_growth_spec(
                map0.feature_at_spec(px, py),
                hj.job.job_type,
                hj.job.position,
            )
        },
    }
}

/// One tick of working a held job; the new map, held job, outcome and
/// regrowth record are exactly `do_job_post` of the inputs.
pub fn do_job(
    map: &mut GridMap,
    map_pathfinding: &mut crate::pathfinding::MapPathfinding,
    actor_tile: TilePos,
    hj: HasJob,
    dt_ms: u32,
) -> (r: (Option<HasJob>, JobOutcome, Option<(TilePos, Growing)>))
    requires
        old(map).wf(),
        old(map_pathfinding).synced(*old(map)),
        old(map).in_bounds(hj.job.position.x as int, hj.job.position.y as int),
        hj.progress <= FULL_PROGRESS,
    ensures
        final(map).wf(),
        final(map_pathfinding).synced(*final(map)),
        final(map).width == old(map).width,
        final(map).height == old(map).height,
        final(map).tiles == old(map).tiles,
        do_job_post(*old(map), *final(map), actor_tile, hj, dt_ms, r),
        r.0 matches Some(h) ==> h.job == hj.job && h.progress <= FULL_PROGRESS
            && final(map).in_bounds(h.job.position.x as int, h.job.position.y as int),
{
    if !is_neighbor(&actor_tile, &hj.job.position) {
        return (Some(hj), JobOutcome::Failed, None);
    }
    let add = accrue(hj.job.job_type.speed(), dt_ms);
    if add >= FULL_PROGRESS || hj.progress >= FULL_PROGRESS - add {
        let grown = crate::execution::execute_job(map, map_pathfinding, &hj.job);
        (None, JobOutcome::Done, grown)
    } else {
        (Some(HasJob { job: hj.job, progress: hj.progress + add }), JobOutcome::Working, None)
    }
}

/// How far a wandering agent may pick its destination, in position units
/// (100 tiles).
pub const MAX_WANDER_DISTANCE: u64 = 100000;

/// A tile is a wander candidate when it is passable and its center lies
/// within the wander radius of the agent's position.
pub open spec fn wander_candidate_spec(map: GridMap, pos: Position, x: int, y: int) -> bool {
    &&& map.is_passable_spec(x, y)
    &&& dist_sq_spec(pos, TilePos { x: x as u32, y: y as u32 }) < MAX_WANDER_DISTANCE
        * MAX_WANDER_DISTANCE
}

/// Picks a wander destination: of the passable tiles within the wander
/// radius, the one selected by the caller-supplied draw (taken modulo
/// their count, so any draw yields a candidate). Returns nothing exactly
/// when no tile qualifies.
pub fn random_destination(map: &GridMap, actor_position: &Position, rand: u64) -> (r: Option<
    Destination,
>)
    requires
        map.wf(),
        actor_position.on_map(*map),
    ensures
        r matches Some(d) ==> wander_candidate_spec(
            *map,
            *actor_position,
            d.destination.x as int,
            d.destination.y as int,
        ) && !d.approximate && map.in_bounds(d.destination.x as int, d.destination.y as int),
        r is None <==> !(exists|x: int, y: int|
            wander_candidate_spec(*map, *actor_position, x, y) && map.in_bounds(x, y)),
{
    let area: usize = (map.width as usize) * (map.height as usize);
    let mut candidates: Vec<TilePos> = Vec::new();
    let mut idx: usize = 0;
    proof {
        assert(actor_position.x < 0x4000_0000u64 && actor_position.y < 0x4000_0000u64)
            by (nonlinear_arith)
            requires
                actor_position.x < map.width * 1000,
                actor_position.y < map.height * 1000,
                map.width <= 0x100000,
                map.height <= 0x100000,
        ;
    }
    while idx < area
        invariant
            map.wf(),
            actor_position.on_map(*map),
            actor_position.x < 0x4000_0000u64,
            actor_position.y < 0x4000_0000u64,
            area == map.area(),
            idx <= area,
            forall|k: int|
                0 <= k < candidates@.len() ==> wander_candidate_spec(
                    *map,
                    *actor_position,
                    #[trigger] candidates@[k].x as int,
                    candidates@[k].y as int,
                ) && map.in_bounds(candidates@[k].x as int, candidates@[k].y as int),
            candidates@.len() == 0 ==> forall|j: int|
                0 <= j < idx ==> !wander_candidate_spec(
                    *map,
                    *actor_position,
                    #[trigger] (j % (map.width as int)),
                    j / (map.width as int),
                ),
        decreases area - idx,
    {
        let t = map.idx_tile_xy(idx);
        if map.is_passable(t.x, t.y) {
            let d = dist_sq(actor_position, &t);
            if d < MAX_WANDER_DISTANCE * MAX_WANDER_DISTANCE {
                candidates.push(t);
            }
        }
        idx = idx + 1;
    }
    if candidates.len() == 0 {
        proof {
            assert forall|x: int, y: int|
                !(wander_candidate_spec(*map, *actor_position, x, y) && map.in_bounds(
                    x,
                    y,
                )) by {
                if map.in_bounds(x, y) {
                    let j = map.idx_spec(x, y);
                    crate::map::lemma_idx_bound(map.width as int, map.height as int, x, y);
                    crate::map::lemma_tile_index_round_trip(*map, x, y, j);
                    assert(j % (map.width as int) == x && j / (map.width as int) == y);
                    assert(!wander_candidate_spec(
                        *map,
                        *actor_position,
                        j % (map.width as int),
                        j / (map.width as int),
                    ));
                }
            }
        }
        return None;
    }
    let pick: usize = (rand % (candidates.len() as u64)) as usize;
    proof {
        vstd::arithmetic::div_mod::lemma_mod_bound(rand as int, candidates@.len() as int);
    }
    let chosen = candidates[pick];
    proof {
        assert(wander_candidate_spec(*map, *actor_position, chosen.x as int, chosen.y as int)
            && map.in_bounds(chosen.x as int, chosen.y as int));
    }
    Some(Destination::new(chosen, false))
}


/// The water-seeking step's product: an approximate destination at the
/// closest water source, or nothing when the world has no water.
pub fn water_source_destination(water_sources: &Vec<TilePos>, actor_position: &Position) -> (r:
    Option<Destination>)
    requires
        actor_position.x <= 0x4000_0000,
        actor_position.y <= 0x4000_0000,
        forall|i: int|
            0 <= i < water_sources@.len() ==> (#[trigger] water_sources@[i].x)
                < crate::neighborhood::MAX_GRID_DIM && water_sources@[i].y
                < crate::neighborhood::MAX_GRID_DIM,
    ensures
        r is None <==> water_sources@.len() == 0,
        r matches Some(d) ==> d == (Destination {
            destination: closest_water_spec(water_sources@, *actor_position),
            approximate: true,
        }),
        r matches Some(d) ==> d.approximate && exists|i: int|
            {
                &&& 0 <= i < water_sources@.len()
                &&& #[trigger] water_sources@[i] == d.destination
                &&& forall|j: int|
                    0 <= j < water_sources@.len() ==> dist_sq_spec(*actor_position, d.destination)
                        <= dist_sq_spec(*actor_position, #[trigger] water_sources@[j])
            },
{
    match find_closest_water_source(water_sources, actor_position) {
        Some(w) => Some(Destination::new(w, true)),
        None => None,
    }
}

/// A walk in progress: the destination, and the path traversal once one
/// has been computed (the first walking tick computes it).
#[derive(Clone, Debug)]
pub struct Walk {
    pub dest: Destination,
    pub mv: Option<MoveToDestination>,
}

impl Walk {
    pub open spec fn wf(self, map: GridMap) -> bool {
        &&& map.in_bounds(self.dest.destination.x as int, self.dest.destination.y as int)
        &&& (self.mv matches Some(m) ==> m.wf(map))
    }

    /// A walk toward `dest` whose path is not yet computed.
    pub fn begin(dest: Destination, map: &GridMap) -> (r: Walk)
        requires
            map.wf(),
            map.in_bounds(dest.destination.x as int, dest.destination.y as int),
        ensures
            r.wf(*map),
            r.dest == dest,
            r.mv is None,
    {
        Walk { dest, mv: None }
    }
}

/// A freshly computed traversal for a walk: the cursor at the start of a
/// path that is valid on the live map, begins on or beside the agent's
/// tile, and ends on the destination (or a neighbor of it when the
/// destination is approximate).
pub open spec fn fresh_path_ok(
    map: GridMap,
    dest: Destination,
    pos0: Position,
    m: MoveToDestination,
) -> bool {
    &&& m.next_idx == 0
    &&& crate::pathfinding::path_valid_spec(map, m.path@)
    &&& m.path@.len() >= 1
    &&& is_neighbor_spec(m.path@[0], tile_of_spec(pos0))
    &&& if dest.approximate {
        is_neighbor_spec(m.path@[m.path@.len() - 1], dest.destination)
    } else {
        m.path@[m.path@.len() - 1] == dest.destination
    }
}

/// The relation of one walking tick. A walk that already holds a path
/// steps it by exactly the movement relation. A walk without one asks
/// the path cache: on success a fresh valid traversal is installed with
/// the position untouched; on failure nothing changes (an exact
/// destination that is impassable always fails). A first tick never
/// arrives.
pub open spec fn walk_step_post(
    map: GridMap,
    speed: Speed,
    dt_ms: u32,
    w0: Walk,
    pos0: Position,
    w1: Walk,
    pos1: Position,
    r: MoveOutcome,
) -> bool {
    &&& w1.dest == w0.dest
    &&& match w0.mv {
        None => {
            &&& pos1 == pos0
            &&& r != MoveOutcome::Arrived
            &&& (r == MoveOutcome::Moving ==> (w1.mv matches Some(m) && fresh_path_ok(
                map,
                w0.dest,
                pos0,
                m,
            )))
            &&& (r == MoveOutcome::Failed ==> w1 == w0)
            &&& (!w0.dest.approximate && !map.is_passable_spec(
                w0.dest.destination.x as int,
                w0.dest.destination.y as int,
            ) ==> r == MoveOutcome::Failed)
        },
        Some(m0) => {
            &&& r == move_outcome_spec(map, w0.dest, pos0, m0)
            &&& w1.mv matches Some(m1) && move_step_spec(
                map,
                w0.dest,
                speed,
                dt_ms,
                pos0,
                m0,
                pos1,
                m1,
                r,
            )
        },
    }
}

/// One tick of a walk. The first tick computes the path (requested
/// phase); later ticks step along it, exactly as `walk_step_post`
/// states. An arrival leaves the agent adjacent to (or on) the
/// destination tile; a failure leaves the position untouched.
pub fn walk_tick(
    walk: &mut Walk,
    map: &GridMap,
    paths: &crate::pathfinding::MapPathfinding,
    speed: &Speed,
    dt_ms: u32,
    pos: &mut Position,
) -> (r: MoveOutcome)
    requires
        map.wf(),
        paths.synced(*map),
        old(walk).wf(*map),
        old(pos).on_map(*map),
    ensures
        final(pos).on_map(*map),
        final(walk).wf(*map),
        walk_step_post(*map, *speed, dt_ms, *old(walk), *old(pos), *final(walk), *final(pos), r),
        r == MoveOutcome::Arrived ==> is_neighbor_spec(
            tile_of_spec(*final(pos)),
            old(walk).dest.destination,
        ),
        r == MoveOutcome::Failed ==> *final(pos) == *old(pos),
{
    let mut taken: Option<MoveToDestination> = None;
    core::mem::swap(&mut taken, &mut walk.mv);
    match taken {
        None => {
            let actor_tile = pos.tile(map);
            match crate::movement::compute_path(map, paths, actor_tile, &walk.dest) {
                Some(p) => {
                    proof {
                        assert forall|i: int| 0 <= i < p@.len() implies map.in_bounds(
                            #[trigger] p@[i].x as int,
                            p@[i].y as int,
                        ) by {
                            assert(map.is_passable_spec(p@[i].x as int, p@[i].y as int));
                        }
                    }
                    walk.mv = Some(MoveToDestination::start(p, map));
                    MoveOutcome::Moving
                },
                None => MoveOutcome::Failed,
            }
        },
        Some(mut m) => {
            let r = crate::movement::move_to_destination(map, &walk.dest, speed, dt_ms, pos, &mut m);
            walk.mv = Some(m);
            r
        },
    }
}

/// The per-agent behavior position: which behavior sequence is running
/// and which step of it, with the step's transient state held inline so
/// that no step can run without the data it needs.
#[derive(Clone, Debug)]
pub enum Activity {
    /// Between steps: the next tick's selection decides what runs.
    Idle,
    /// Thirst: pick the closest water source as the destination.
    SeekWater,
    /// Thirst: walk until adjacent to the water.
    WalkToWater { walk: Walk },
    /// Thirst: drink until the thirst is quenched.
    Drinking,
    /// Work: claim a job from the shared queue.
    TakeJob,
    /// Work: turn the held job's target into a destination.
    PlanJob,
    /// Work: walk to the job's target.
    WalkToJob { walk: Walk },
    /// Work: perform the job until it completes.
    DoingJob,
    /// Meander: pick a random reachable tile nearby.
    PickSpot,
    /// Meander: walk there.
    Wandering { walk: Walk },
}

impl Activity {
    pub open spec fn wf(self, map: GridMap) -> bool {
        match self {
            Activity::WalkToWater { walk } => walk.wf(map),
            Activity::WalkToJob { walk } => walk.wf(map),
            Activity::Wandering { walk } => walk.wf(map),
            _ => true,
        }
    }

    /// Which behavior a step belongs to; `Idle` belongs to none.
    pub open spec fn behavior_spec(self) -> Option<Behavior> {
        match self {
            Activity::Idle => None,
            Activity::SeekWater => Some(Behavior::Thirst),
            Activity::WalkToWater { .. } => Some(Behavior::Thirst),
            Activity::Drinking => Some(Behavior::Thirst),
            Activity::TakeJob => Some(Behavior::Work),
            Activity::PlanJob => Some(Behavior::Work),
            Activity::WalkToJob { .. } => Some(Behavior::Work),
            Activity::DoingJob => Some(Behavior::Work),
            Activity::PickSpot => Some(Behavior::Meander),
            Activity::Wandering { .. } => Some(Behavior::Meander),
        }
    }
}

/// The first step of each behavior sequence.
pub open spec fn entry_activity(b: Behavior) -> Activity {
    match b {
        Behavior::Thirst => Activity::SeekWater,
        Behavior::Work => Activity::TakeJob,
        Behavior::Meander => Activity::PickSpot,
    }
}

fn behavior_of(a: &Activity) -> (r: Option<Behavior>)
    ensures
        r == a.behavior_spec(),
{
    match a {
        Activity::Idle => None,
        Activity::SeekWater => Some(Behavior::Thirst),
        Activity::WalkToWater { .. } => Some(Behavior::Thirst),
        Activity::Drinking => Some(Behavior::Thirst),
        Activity::TakeJob => Some(Behavior::Work),
        Activity::PlanJob => Some(Behavior::Work),
        Activity::WalkToJob { .. } => Some(Behavior::Work),
        Activity::DoingJob => Some(Behavior::Work),
        Activity::PickSpot => Some(Behavior::Meander),
        Activity::Wandering { .. } => Some(Behavior::Meander),
    }
}

fn entry_of(b: Behavior) -> (r: Activity)
    ensures
        r == entry_activity(b),
{
    match b {
        Behavior::Thirst => Activity::SeekWater,
        Behavior::Work => Activity::TakeJob,
        Behavior::Meander => Activity::PickSpot,
    }
}

/// One autonomous villager: position, speed, needs, held job, and the
/// behavior step currently running.
#[derive(Clone, Debug)]
pub struct Villager {
    pub pos: Position,
    pub speed: Speed,
    pub thirst: Thirst,
    pub drink: Drink,
    pub has_job: Option<HasJob>,
    pub activity: Activity,
}

impl Villager {
    pub open spec fn wf(self, map: GridMap) -> bool {
        &&& self.pos.on_map(map)
        &&& self.thirst.wf()
        &&& (self.has_job matches Some(hj) ==> map.in_bounds(
            hj.job.position.x as int,
            hj.job.position.y as int,
        ) && hj.progress <= FULL_PROGRESS)
        &&& self.activity.wf(map)
    }

    /// A fresh villager standing at `pos`, holding no job, idle.
    pub fn new(
        pos: Position,
        speed: Speed,
        thirst: Thirst,
        drink: Drink,
        map: &GridMap,
    ) -> (r: Villager)
        requires
            map.wf(),
            pos.on_map(*map),
            thirst.wf(),
        ensures
            r.wf(*map),
            r.pos == pos,
            r.speed == speed,
            r.thirst == thirst,
            r.drink == drink,
            r.has_job is None,
            r.activity is Idle,
    {
        Villager { pos, speed, thirst, drink, has_job: None, activity: Activity::Idle }
    }
}

/// The work utility the selector sees for a villager.
pub open spec fn work_score_spec(v: Villager, q: JobQueue, map: GridMap) -> int {
    if v.has_job is Some || q.any_accessible_spec(map) {
        WORK_SCORE as int
    } else {
        0
    }
}

/// The relation of one behavior step: given that the selector kept the
/// running behavior, what this tick's step did to the villager, the map,
/// the job queue and the regrowth records, state by state. Each step is
/// pinned to its leaf relation (`drink_model`, `take_job_post`,
/// `do_job_post`, `walk_step_post`); only where the path cache decides
/// (the first tick of a walk, which may fail to find a path) are both
/// outcomes admitted.
pub open spec fn tick_step_post(
    v0: Villager,
    v1: Villager,
    map0: GridMap,
    map1: GridMap,
    q0: Seq<Job>,
    q1: Seq<Job>,
    g0: Seq<(TilePos, Growing)>,
    g1: Seq<(TilePos, Growing)>,
    waters: Seq<TilePos>,
    dt_ms: u32,
) -> bool {
    let world_same = map1 == map0 && q1 == q0 && g1 == g0;
    match v0.activity {
        Activity::Idle => true,
        Activity::SeekWater => {
            &&& world_same
            &&& v1.pos == v0.pos && v1.thirst == v0.thirst && v1.has_job == v0.has_job
            &&& if waters.len() == 0 {
                v1.activity is Idle
            } else {
                v1.activity == (Activity::WalkToWater {
                    walk: Walk {
                        dest: Destination {
                            destination: closest_water_spec(waters, v0.pos),
                            approximate: true,
                        },
                        mv: None,
                    },
                })
            }
        },
        Activity::WalkToWater { walk: w0 } => {
            &&& world_same
            &&& v1.thirst == v0.thirst && v1.has_job == v0.has_job
            &&& match v1.activity {
                Activity::WalkToWater { walk: w1 } => walk_step_post(
                    map0,
                    v0.speed,
                    dt_ms,
                    w0,
                    v0.pos,
                    w1,
                    v1.pos,
                    MoveOutcome::Moving,
                ),
                Activity::Drinking => {
                    &&& v1.pos == v0.pos
                    &&& w0.mv matches Some(m0) && move_outcome_spec(map0, w0.dest, v0.pos, m0)
                        == MoveOutcome::Arrived
                    &&& is_neighbor_spec(tile_of_spec(v1.pos), w0.dest.destination)
                },
                Activity::Idle => {
                    &&& v1.pos == v0.pos
                    &&& (w0.mv matches Some(m0) ==> move_outcome_spec(map0, w0.dest, v0.pos, m0)
                        == MoveOutcome::Failed)
                },
                _ => false,
            }
        },
        Activity::Drinking => {
            &&& world_same
            &&& v1.pos == v0.pos && v1.has_job == v0.has_job
            &&& if waters.len() == 0 {
                v1.activity is Idle && v1.thirst == v0.thirst
            } else {
                let dm = drink_model(
                    v0.thirst,
                    v0.drink,
                    dt_ms,
                    tile_of_spec(v0.pos),
                    closest_water_spec(waters, v0.pos),
                );
                &&& v1.thirst == dm.0
                &&& v1.activity == if dm.1 == DrinkOutcome::Drinking {
                    Activity::Drinking
                } else {
                    Activity::Idle
                }
            }
        },
        Activity::TakeJob => {
            &&& map1 == map0 && g1 == g0
            &&& v1.pos == v0.pos && v1.thirst == v0.thirst
            &&& take_job_post(q0, map0, v0.has_job, (v1.has_job, v1.activity is PlanJob), q1)
            &&& (v1.activity is PlanJob || v1.activity is Idle)
        },
        Activity::PlanJob => {
            &&& world_same
            &&& v1.pos == v0.pos && v1.thirst == v0.thirst && v1.has_job == v0.has_job
            &&& match v0.has_job {
                Some(hj) => v1.activity == (Activity::WalkToJob {
                    walk: Walk {
                        dest: Destination { destination: hj.job.position, approximate: false },
                        mv: None,
                    },
                }),
                None => v1.activity is Idle,
            }
        },
        Activity::WalkToJob { walk: w0 } => {
            &&& world_same
            &&& v1.thirst == v0.thirst && v1.has_job == v0.has_job
            &&& match v1.activity {
                Activity::WalkToJob { walk: w1 } => walk_step_post(
                    map0,
                    v0.speed,
                    dt_ms,
                    w0,
                    v0.pos,
                    w1,
                    v1.pos,
                    MoveOutcome::Moving,
                ),
                Activity::DoingJob => {
                    &&& v1.pos == v0.pos
                    &&& w0.mv matches Some(m0) && move_outcome_spec(map0, w0.dest, v0.pos, m0)
                        == MoveOutcome::Arrived
                    &&& is_neighbor_spec(tile_of_spec(v1.pos), w0.dest.destination)
                },
                Activity::Idle => {
                    &&& v1.pos == v0.pos
                    &&& (w0.mv matches Some(m0) ==> move_outcome_spec(map0, w0.dest, v0.pos, m0)
                        == MoveOutcome::Failed)
                },
                _ => false,
            }
        },
        Activity::DoingJob => {
            &&& q1 == q0
            &&& v1.pos == v0.pos && v1.thirst == v0.thirst
            &&& match v0.has_job {
                Some(hj) => {
                    let actor = tile_of_spec(v0.pos);
                    let o = do_job_outcome_spec(actor, hj, dt_ms);
                    let growth = if o == JobOutcome::Done {
                        crate::execution::job_growth_spec(
                            map0.feature_at_spec(
                                hj.job.position.x as int,
                                hj.job.position.y as int,
                            ),
                            hj.job.job_type,
                            hj.job.position,
                        )
                    } else {
                        None
                    };
                    &&& do_job_post(map0, map1, actor, hj, dt_ms, (v1.has_job, o, growth))
                    &&& g1 == (match growth {
                        Some(e) => g0.push(e),
                        None => g0,
                    })
                    &&& v1.activity == if o == JobOutcome::Working {
                        Activity::DoingJob
                    } else {
                        Activity::Idle
                    }
                },
                None => {
                    &&& map1 == map0 && g1 == g0
                    &&& v1.has_job is None
                    &&& v1.activity is Idle
                },
            }
        },
        Activity::PickSpot => {
            &&& world_same
            &&& v1.pos == v0.pos && v1.thirst == v0.thirst && v1.has_job == v0.has_job
            &&& match v1.activity {
                Activity::Wandering { walk } => {
                    &&& walk.mv is None
                    &&& !walk.dest.approximate
                    &&& wander_candidate_spec(
                        map0,
                        v0.pos,
                        walk.dest.destination.x as int,
                        walk.dest.destination.y as int,
                    )
                },
                Activity::Idle => !(exists|x: int, y: int|
                    wander_candidate_spec(map0, v0.pos, x, y) && map0.in_bounds(x, y)),
                _ => false,
            }
        },
        Activity::Wandering { walk: w0 } => {
            &&& world_same
            &&& v1.thirst == v0.thirst && v1.has_job == v0.has_job
            &&& match v1.activity {
                Activity::Wandering { walk: w1 } => walk_step_post(
                    map0,
                    v0.speed,
                    dt_ms,
                    w0,
                    v0.pos,
                    w1,
                    v1.pos,
                    MoveOutcome::Moving,
                ),
                Activity::Idle => {
                    &&& v1.pos == v0.pos
                    &&& (w0.mv matches Some(m0) ==> move_outcome_spec(map0, w0.dest, v0.pos, m0)
                        != MoveOutcome::Moving)
                },
                _ => false,
            }
        },
    }
}

/// One tick of one villager's behavior state machine.
///
/// The utility selector runs first: thirst scores thirst/100, work scores
/// a fixed 800 when a job is held or accessible, meander a fixed 500, and
/// ties go to the earlier behavior (thirst, then work, then meander).
/// When the running step belongs to another behavior than the selected
/// one, the step is cancelled and the selected behavior's first step is
/// installed, consuming the tick without touching the world. Otherwise
/// the current step runs for one tick, exactly as `tick_step_post`
/// states; a failed or completed step leaves the agent idle for the next
/// selection pass. A completed chop appends its regrowth record to
/// `growing`; the caller ticks those records with `grow`.
pub fn agent_tick(
    v: &mut Villager,
    map: &mut GridMap,
    paths: &mut crate::pathfinding::MapPathfinding,
    job_queue: &mut JobQueue,
    growing: &mut Vec<(TilePos, Growing)>,
    water_sources: &Vec<TilePos>,
    rand: u64,
    dt_ms: u32,
)
    requires
        old(map).wf(),
        old(paths).synced(*old(map)),
        old(v).wf(*old(map)),
        forall|i: int|
            0 <= i < water_sources@.len() ==> old(map).in_bounds(
                #[trigger] water_sources@[i].x as int,
                water_sources@[i].y as int,
            ),
        forall|i: int|
            0 <= i < old(job_queue).jobs@.len() ==> old(map).in_bounds(
                #[trigger] old(job_queue).jobs@[i].position.x as int,
                old(job_queue).jobs@[i].position.y as int,
            ),
    ensures
        final(map).wf(),
        final(paths).synced(*final(map)),
        final(map).width == old(map).width,
        final(map).height == old(map).height,
        final(map).tiles == old(map).tiles,
        final(v).wf(*final(map)),
        final(v).speed == old(v).speed,
        final(v).drink == old(v).drink,
        final(v).thirst.per_second == old(v).thirst.per_second,
        forall|i: int|
            0 <= i < final(job_queue).jobs@.len() ==> final(map).in_bounds(
                #[trigger] final(job_queue).jobs@[i].position.x as int,
                final(job_queue).jobs@[i].position.y as int,
            ),
        ({
            let sel = select_spec(
                old(v).thirst.thirst as int / 100,
                work_score_spec(*old(v), *old(job_queue), *old(map)),
            );
            &&& (old(v).activity.behavior_spec() != Some(sel) ==> {
                &&& final(v).activity == entry_activity(sel)
                &&& *final(map) == *old(map)
                &&& final(job_queue).jobs@ == old(job_queue).jobs@
                &&& final(growing)@ == old(growing)@
                &&& final(v).pos == old(v).pos
                &&& final(v).thirst == old(v).thirst
                &&& final(v).has_job == old(v).has_job
            })
            &&& (old(v).activity.behavior_spec() == Some(sel) ==> tick_step_post(
                *old(v),
                *final(v),
                *old(map),
                *final(map),
                old(job_queue).jobs@,
                final(job_queue).jobs@,
                old(growing)@,
                final(growing)@,
                water_sources@,
                dt_ms,
            ))
            &&& (final(v).activity.behavior_spec() == Some(sel) || final(v).activity is Idle)
        }),
        !(old(v).activity is Drinking) ==> final(v).thirst == old(v).thirst,
        !(old(v).activity is DoingJob) ==> *final(map) == *old(map),
        !(old(v).activity is DoingJob) ==> final(growing)@ == old(growing)@,
        !(old(v).activity is TakeJob) ==> final(job_queue).jobs@ == old(job_queue).jobs@,
        !(old(v).activity is WalkToWater || old(v).activity is WalkToJob || old(
            v,
        ).activity is Wandering) ==> final(v).pos == old(v).pos,
        !(old(v).activity is TakeJob || old(v).activity is DoingJob) ==> final(v).has_job == old(
            v,
        ).has_job,
{
    let ts = thirsty_scorer(&v.thirst);
    let ws = job_available_scorer(v.has_job.is_some(), job_queue, map);
    let sel = select_behavior(ts, ws);
    let cur = behavior_of(&v.activity);
    let same = match cur {
        Some(b) => b == sel,
        None => false,
    };
    if !same {
        v.activity = entry_of(sel);
        return;
    }
    let mut act = Activity::Idle;
    core::mem::swap(&mut act, &mut v.activity);
    match act {
        Activity::Idle => {},
        Activity::SeekWater => {
            match water_source_destination(water_sources, &v.pos) {
                Some(dest) => {
                    proof {
                        let i = choose|i: int|
                            {
                                &&& 0 <= i < water_sources@.len()
                                &&& #[trigger] water_sources@[i] == dest.destination
                                &&& forall|j: int|
                                    0 <= j < water_sources@.len() ==> dist_sq_spec(
                                        v.pos,
                                        dest.destination,
                                    ) <= dist_sq_spec(v.pos, #[trigger] water_sources@[j])
                            };
                        assert(map.in_bounds(
                            water_sources@[i].x as int,
                            water_sources@[i].y as int,
                        ));
                    }
                    let walk = Walk::begin(dest, map);
                    v.activity = Activity::WalkToWater { walk };
                },
                None => {
                    v.activity = Activity::Idle;
                },
            }
        },
        Activity::WalkToWater { mut walk } => {
            let r = walk_tick(&mut walk, map, paths, &v.speed, dt_ms, &mut v.pos);
            match r {
                MoveOutcome::Moving => {
                    v.activity = Activity::WalkToWater { walk };
                },
                MoveOutcome::Arrived => {
                    v.activity = Activity::Drinking;
                },
                MoveOutcome::Failed => {
                    v.activity = Activity::Idle;
                },
            }
        },
        Activity::Drinking => {
            let actor_tile = v.pos.tile(map);
            match find_closest_water_source(water_sources, &v.pos) {
                Some(w) => {
                    let r = drink(&mut v.thirst, &v.drink, dt_ms, actor_tile, w);
                    match r {
                        DrinkOutcome::Drinking => {
                            v.activity = Activity::Drinking;
                        },
                        DrinkOutcome::Done => {
                            v.activity = Activity::Idle;
                        },
                        DrinkOutcome::Failed => {
                            v.activity = Activity::Idle;
                        },
                    }
                },
                None => {
                    v.activity = Activity::Idle;
                },
            }
        },
        Activity::TakeJob => {
            let ghost q0 = job_queue.jobs@;
            let (hj, ok) = take_job(job_queue, map, v.has_job);
            v.has_job = hj;
            proof {
                assert forall|i: int| 0 <= i < job_queue.jobs@.len() implies map.in_bounds(
                    #[trigger] job_queue.jobs@[i].position.x as int,
                    job_queue.jobs@[i].position.y as int,
                ) by {
                    if job_queue.jobs@ =~= q0.drop_first().push(q0[0]) {
                        if i < q0.len() - 1 {
                            assert(job_queue.jobs@[i] == q0[i + 1]);
                        } else {
                            assert(job_queue.jobs@[i] == q0[0]);
                        }
                    } else if job_queue.jobs@ =~= q0.drop_first() {
                        assert(job_queue.jobs@[i] == q0[i + 1]);
                    }
                }
            }
            if ok {
                v.activity = Activity::PlanJob;
            } else {
                v.activity = Activity::Idle;
            }
        },
        Activity::PlanJob => {
            match job_destination(&v.has_job) {
                Some(dest) => {
                    let walk = Walk::begin(dest, map);
                    v.activity = Activity::WalkToJob { walk };
                },
                None => {
                    v.activity = Activity::Idle;
                },
            }
        },
        Activity::WalkToJob { mut walk } => {
            let r = walk_tick(&mut walk, map, paths, &v.speed, dt_ms, &mut v.pos);
            match r {
                MoveOutcome::Moving => {
                    v.activity = Activity::WalkToJob { walk };
                },
                MoveOutcome::Arrived => {
                    v.activity = Activity::DoingJob;
                },
                MoveOutcome::Failed => {
                    v.activity = Activity::Idle;
                },
            }
        },
        Activity::DoingJob => {
            match v.has_job {
                Some(hj) => {
                    let actor_tile = v.pos.tile(map);
                    let (nhj, r, grown) = do_job(map, paths, actor_tile, hj, dt_ms);
                    v.has_job = nhj;
                    match grown {
                        Some(entry) => {
                            growing.push(entry);
                        },
                        None => {},
                    }
                    match r {
                        JobOutcome::Working => {
                            v.activity = Activity::DoingJob;
                        },
                        JobOutcome::Done => {
                            v.activity = Activity::Idle;
                        },
                        JobOutcome::Failed => {
                            v.activity = Activity::Idle;
                        },
                    }
                },
                None => {
                    v.activity = Activity::Idle;
                },
            }
        },
        Activity::PickSpot => {
            match random_destination(map, &v.pos, rand) {
                Some(dest) => {
                    let walk = Walk::begin(dest, map);
                    v.activity = Activity::Wandering { walk };
                },
                None => {
                    v.activity = Activity::Idle;
                },
            }
        },
        Activity::Wandering { mut walk } => {
            let r = walk_tick(&mut walk, map, paths, &v.speed, dt_ms, &mut v.pos);
            match r {
                MoveOutcome::Moving => {
                    v.activity = Activity::Wandering { walk };
                },
                MoveOutcome::Arrived => {
                    v.activity = Activity::Idle;
                },
                MoveOutcome::Failed => {
                    v.activity = Activity::Idle;
                },
            }
        },
    }
}

} // verus!
