use town_sim::agent::{
    agent_tick, do_job, drink, find_closest_water_source, handle_thirst, job_available_scorer,
    job_destination, random_destination, select_behavior, take_job, thirsty_scorer, Activity,
    Behavior, Drink, DrinkOutcome, HasJob, JobOutcome, Thirst, Villager,
};
use town_sim::biomes::Biomes;
use town_sim::execution::{do_chop, do_mine, execute_job};
use town_sim::features::Features;
use town_sim::jobs::{Job, JobQueue, Jobs};
use town_sim::map::GridMap;
use town_sim::movement::{
    compute_path, move_to_destination, step_len, step_toward, Destination, MoveOutcome,
    MoveToDestination, Position, Speed,
};
use town_sim::pathfinding::MapPathfinding;
use town_sim::simulation::{grow, Growing};
use town_sim::tile::TilePos;

fn open_map(height: u32, width: u32) -> GridMap {
    let mut map = GridMap::new(height, width);
    for x in 0..width {
        for y in 0..height {
            map.set_terrain(x, y, Biomes::Grassland);
        }
    }
    map
}

#[test]
fn thirst_accumulates_and_clamps() {
    let mut t = Thirst::new(0, 2000);
    handle_thirst(&mut t, 500);
    assert_eq!(t.thirst, 1000);
    let mut t2 = Thirst::new(99900, 2000);
    handle_thirst(&mut t2, 1000);
    assert_eq!(t2.thirst, 100000);
}

#[test]
fn drinking_beside_water_resets_thirst() {
    let mut t = Thirst::new(50000, 0);
    let conf = Drink { per_second: 10000 };
    let here = TilePos::new(1, 1);
    let water = TilePos::new(0, 0);
    // 4 seconds at 10 points per second: 40 points of 50.
    assert_eq!(drink(&mut t, &conf, 4000, here, water), DrinkOutcome::Drinking);
    assert_eq!(t.drink_progress, 40000);
    assert_eq!(t.thirst, 50000);
    // One more second reaches the thirst level: reset to exactly 0.
    assert_eq!(drink(&mut t, &conf, 1000, here, water), DrinkOutcome::Done);
    assert_eq!(t.thirst, 0);
    assert_eq!(t.drink_progress, 0);
    // Too far away: the step fails and nothing changes.
    let mut t3 = Thirst::new(50000, 0);
    assert_eq!(drink(&mut t3, &conf, 1000, TilePos::new(5, 5), water), DrinkOutcome::Failed);
    assert_eq!(t3.thirst, 50000);
}

#[test]
fn scorers_and_selection() {
    let t = Thirst::new(80000, 0);
    assert_eq!(thirsty_scorer(&t), 800);
    let map = open_map(4, 4);
    let mut q = JobQueue::new();
    assert_eq!(job_available_scorer(false, &q, &map), 0);
    assert_eq!(job_available_scorer(true, &q, &map), 800);
    q.enqueue(Job::new(Jobs::Chop, TilePos::new(1, 1)));
    assert_eq!(job_available_scorer(false, &q, &map), 800);

    assert_eq!(select_behavior(800, 800), Behavior::Thirst);
    assert_eq!(select_behavior(0, 800), Behavior::Work);
    assert_eq!(select_behavior(0, 0), Behavior::Meander);
    assert_eq!(select_behavior(500, 0), Behavior::Thirst);
    assert_eq!(select_behavior(499, 500), Behavior::Work);
    assert_eq!(select_behavior(499, 499), Behavior::Meander);
}

#[test]
fn take_job_cases() {
    let map = open_map(6, 6);
    let mut q = JobQueue::new();
    // Empty queue: nothing to take.
    assert_eq!(take_job(&mut q, &map, None), (None, false));
    // Accessible front job: claimed with zero progress.
    let a = Job::new(Jobs::Chop, TilePos::new(1, 1));
    q.enqueue(a);
    let (hj, ok) = take_job(&mut q, &map, None);
    assert!(ok);
    assert_eq!(hj, Some(HasJob { job: a, progress: 0 }));
    assert_eq!(q.jobs.len(), 0);
    // An agent that already holds a job keeps it, queue untouched.
    q.enqueue(a);
    let held = Some(HasJob { job: a, progress: 42 });
    assert_eq!(take_job(&mut q, &map, held), (held, true));
    assert_eq!(q.jobs.len(), 1);
}

#[test]
fn job_destination_is_the_target() {
    let a = Job::new(Jobs::Mine, TilePos::new(4, 2));
    let d = job_destination(&Some(HasJob::new(a))).unwrap();
    assert_eq!(d.destination, TilePos::new(4, 2));
    assert!(!d.approximate);
    assert!(job_destination(&None).is_none());
}

#[test]
fn closest_water_prefers_earlier_on_ties() {
    let waters = vec![TilePos::new(2, 2), TilePos::new(0, 0), TilePos::new(9, 9)];
    let pos = Position::at_tile_center(TilePos::new(1, 1));
    // (2,2) and (0,0) are equally far; the first listed wins.
    assert_eq!(find_closest_water_source(&waters, &pos), Some(TilePos::new(2, 2)));
    let none: Vec<TilePos> = Vec::new();
    assert_eq!(find_closest_water_source(&none, &pos), None);
}

#[test]
fn random_destination_picks_candidates() {
    let mut map = GridMap::new(3, 3);
    map.set_terrain(0, 0, Biomes::Grassland);
    map.set_terrain(1, 1, Biomes::Grassland);
    let pos = Position::at_tile_center(TilePos::new(1, 1));
    // Candidates scan in row-major order: (0,0) first, then (1,1).
    let d0 = random_destination(&map, &pos, 0).unwrap();
    assert_eq!(d0.destination, TilePos::new(0, 0));
    assert!(!d0.approximate);
    let d1 = random_destination(&map, &pos, 1).unwrap();
    assert_eq!(d1.destination, TilePos::new(1, 1));
    let d2 = random_destination(&map, &pos, 7).unwrap();
    assert_eq!(d2.destination, TilePos::new(1, 1));
    // An all-blocked map has no candidate.
    let blocked = GridMap::new(3, 3);
    let bpos = Position::at_tile_center(TilePos::new(1, 1));
    assert_eq!(random_destination(&blocked, &bpos, 0), None);
}

#[test]
fn stepping_never_overshoots() {
    assert_eq!(step_toward(100, 500, 200), 300);
    assert_eq!(step_toward(100, 500, 1000), 500);
    assert_eq!(step_toward(500, 100, 200), 300);
    assert_eq!(step_toward(500, 100, 1000), 100);
    assert_eq!(step_toward(7, 7, 3), 7);
    // 5 tiles per second over 100 ms on baseline terrain: half a tile.
    assert_eq!(step_len(5000, 100, 100), 500);
    // Dearer terrain slows the step down.
    assert_eq!(step_len(5000, 100, 170), 294);
}

#[test]
fn chop_leaves_stump_and_cactus_vanishes() {
    let mut map = open_map(5, 5);
    let mut paths = MapPathfinding::new(&map);
    map.set_feature(1, 1, Some(Features::Tree));
    map.set_feature(2, 2, Some(Features::Cactus));
    // A tree leaves a stump and starts a fresh regrowth timer.
    let timer = do_chop(&mut map, &paths, &TilePos::new(1, 1));
    assert_eq!(map.feature_at(1, 1), Some(Features::TreeStump));
    assert_eq!(timer, Some(Growing { speed: 5, progress: 0 }));
    // A cactus has no stump: removed entirely, nothing grows back.
    let no_timer = do_chop(&mut map, &paths, &TilePos::new(2, 2));
    assert_eq!(map.feature_at(2, 2), None);
    assert_eq!(no_timer, None);
    // A stale chop order on a non-choppable feature does nothing.
    map.set_feature(3, 3, Some(Features::Rocks));
    let g = execute_job(&mut map, &mut paths, &Job::new(Jobs::Chop, TilePos::new(3, 3)));
    assert_eq!(map.feature_at(3, 3), Some(Features::Rocks));
    assert_eq!(g, None);
}

#[test]
fn mine_build_clear_mutate_one_tile() {
    let mut map = open_map(5, 5);
    let mut paths = MapPathfinding::new(&map);
    map.set_feature(1, 1, Some(Features::StoneWall));
    map.set_feature(3, 3, Some(Features::Tree));
    do_mine(&mut map, &mut paths, &TilePos::new(1, 1));
    assert_eq!(map.feature_at(1, 1), None);
    assert_eq!(map.feature_at(3, 3), Some(Features::Tree));
    let gb = execute_job(&mut map, &mut paths, &Job::new(Jobs::Build(Features::Wall), TilePos::new(2, 2)));
    assert_eq!(gb, None);
    assert_eq!(map.feature_at(2, 2), Some(Features::Wall));
    assert!(!map.is_passable(2, 2));
    let gc = execute_job(&mut map, &mut paths, &Job::new(Jobs::Clear, TilePos::new(2, 2)));
    assert_eq!(gc, None);
    assert_eq!(map.feature_at(2, 2), None);
    assert!(map.is_passable(2, 2));
}

#[test]
fn working_a_job_accumulates_and_completes() {
    let mut map = open_map(6, 6);
    let mut paths = MapPathfinding::new(&map);
    let hj = HasJob::new(Job::new(Jobs::Build(Features::Floor), TilePos::new(2, 2)));
    // Too far away: failure, job kept, map untouched.
    let (kept, r, g) = do_job(&mut map, &mut paths, TilePos::new(5, 5), hj, 1000);
    assert_eq!(r, JobOutcome::Failed);
    assert_eq!(kept, Some(hj));
    assert_eq!(g, None);
    assert_eq!(map.feature_at(2, 2), None);
    // Beside the target: one second of building at 30 points per second.
    let (kept2, r2, g2) = do_job(&mut map, &mut paths, TilePos::new(2, 3), hj, 1000);
    assert_eq!(r2, JobOutcome::Working);
    assert_eq!(kept2.unwrap().progress, 30000);
    assert_eq!(g2, None);
    // Enough time to cross 100 points: the floor appears, the job ends.
    let (kept3, r3, g3) = do_job(&mut map, &mut paths, TilePos::new(2, 3), kept2.unwrap(), 3000);
    assert_eq!(r3, JobOutcome::Done);
    assert_eq!(kept3, None);
    assert_eq!(g3, None);
    assert_eq!(map.feature_at(2, 2), Some(Features::Floor));
}

#[test]
fn stump_grows_back() {
    let mut map = open_map(5, 5);
    let paths = MapPathfinding::new(&map);
    map.set_feature(1, 1, Some(Features::TreeStump));
    let mut g = Growing { speed: 50000, progress: 0 };
    assert!(!grow(&mut map, &paths, TilePos::new(1, 1), &mut g));
    assert_eq!(g.progress, 50000);
    assert_eq!(map.feature_at(1, 1), Some(Features::TreeStump));
    assert!(grow(&mut map, &paths, TilePos::new(1, 1), &mut g));
    assert_eq!(map.feature_at(1, 1), Some(Features::Tree));
    assert_eq!(Growing::new().speed, 5);
    // A timer whose tile lost its stump ends at once, map untouched.
    map.set_feature(2, 2, Some(Features::TreeStump));
    let mut stale = Growing { speed: 5, progress: 0 };
    map.set_feature(2, 2, Some(Features::Wall));
    assert!(grow(&mut map, &paths, TilePos::new(2, 2), &mut stale));
    assert_eq!(map.feature_at(2, 2), Some(Features::Wall));
}

#[test]
fn build_scenario_completes_floor() {
    // 10x10 all-passable grid, one agent at (0,0), one Build(Floor) order
    // at (5,5): the agent claims it, walks the whole path, accumulates
    // progress beside the target and the floor appears; the agent ends
    // holding no job.
    let mut map = open_map(10, 10);
    let mut paths = MapPathfinding::new(&map);
    let mut q = JobQueue::new();
    q.enqueue(Job::new(Jobs::Build(Features::Floor), TilePos::new(5, 5)));
    let waters: Vec<TilePos> = Vec::new();
    let mut growing: Vec<(TilePos, Growing)> = Vec::new();
    let mut v = Villager::new(
        Position::at_tile_center(TilePos::new(0, 0)),
        Speed::new(5000),
        Thirst::new(0, 0),
        Drink { per_second: 10000 },
        &map,
    );
    let mut done = false;
    for _ in 0..2000 {
        agent_tick(&mut v, &mut map, &mut paths, &mut q, &mut growing, &waters, 0, 100);
        if map.feature_at(5, 5) == Some(Features::Floor) {
            done = true;
            break;
        }
    }
    assert!(done, "the build order never completed");
    assert!(v.has_job.is_none());
    assert_eq!(q.jobs.len(), 0);
}

#[test]
fn thirst_scenario_drinks_to_zero() {
    // Water at (0,0), agent at (9,9) with thirst 80 and a drink rate of
    // 10 points per second: thirst (utility 0.8) beats meander (0.5), the
    // agent walks next to the water, and after exactly 8 seconds of
    // drinking the thirst resets to exactly 0.
    let mut map = open_map(10, 10);
    map.set_terrain(0, 0, Biomes::Ocean);
    let mut paths = MapPathfinding::new(&map);
    let mut q = JobQueue::new();
    let waters = vec![TilePos::new(0, 0)];
    let mut v = Villager::new(
        Position::at_tile_center(TilePos::new(9, 9)),
        Speed::new(5000),
        Thirst::new(80000, 0),
        Drink { per_second: 10000 },
        &map,
    );
    let mut growing: Vec<(TilePos, Growing)> = Vec::new();
    agent_tick(&mut v, &mut map, &mut paths, &mut q, &mut growing, &waters, 0, 100);
    assert!(matches!(v.activity, Activity::SeekWater), "thirst must win the selection");
    let mut drink_ticks = 0u32;
    let mut quenched = false;
    for _ in 0..4000 {
        let drinking = matches!(v.activity, Activity::Drinking);
        agent_tick(&mut v, &mut map, &mut paths, &mut q, &mut growing, &waters, 0, 100);
        if drinking {
            drink_ticks += 1;
        }
        if v.thirst.thirst == 0 {
            quenched = true;
            break;
        }
    }
    assert!(quenched, "the agent never finished drinking");
    // 80 points at 10 points per second, 100 ms per tick: 80 ticks = 8 s.
    assert_eq!(drink_ticks, 80);
}

#[test]
fn unreachable_job_cycles_in_queue() {
    // A job whose target is walled in on all sides is rejected at claim
    // time and goes back to the queue; no job counts as accessible.
    let mut map = open_map(10, 10);
    for dx in 0..3u32 {
        for dy in 0..3u32 {
            if !(dx == 1 && dy == 1) {
                map.set_feature(2 + dx, 2 + dy, Some(Features::StoneWall));
            }
        }
    }
    let mut paths = MapPathfinding::new(&map);
    let mut q = JobQueue::new();
    let job = Job::new(Jobs::Chop, TilePos::new(3, 3));
    q.enqueue(job);
    let waters: Vec<TilePos> = Vec::new();
    let mut v = Villager::new(
        Position::at_tile_center(TilePos::new(0, 0)),
        Speed::new(5000),
        Thirst::new(0, 0),
        Drink { per_second: 10000 },
        &map,
    );
    // The work scorer sees no accessible job, so meander is selected and
    // the queue is never drained.
    let mut growing: Vec<(TilePos, Growing)> = Vec::new();
    agent_tick(&mut v, &mut map, &mut paths, &mut q, &mut growing, &waters, 0, 100);
    assert!(matches!(v.activity, Activity::PickSpot));
    assert!(!q.any_job_accessible(&map));
    // A direct claim attempt requeues the job, length unchanged.
    assert_eq!(q.claim_accessible(&map), None);
    assert_eq!(q.jobs.len(), 1);
    assert_eq!(q.jobs[0], job);
}

#[test]
fn mining_off_path_leaves_walk_unaffected() {
    // An agent walks (0,0) -> (9,0); mid-walk a mine removes a feature
    // near but not on the path. The path stays valid and arrival
    // succeeds.
    let mut map = open_map(10, 10);
    map.set_feature(5, 2, Some(Features::Rocks));
    let mut paths = MapPathfinding::new(&map);
    let dest = Destination::new(TilePos::new(9, 0), false);
    let start = TilePos::new(0, 0);
    let path = compute_path(&map, &paths, start, &dest).expect("open row is connected");
    let mut pos = Position::at_tile_center(start);
    let mut mv = MoveToDestination::start(path, &map);
    let speed = Speed::new(5000);
    let mut outcome = MoveOutcome::Moving;
    let mut ticks = 0u32;
    for i in 0..10000 {
        outcome = move_to_destination(&map, &dest, &speed, 100, &mut pos, &mut mv);
        if i == 5 {
            do_mine(&mut map, &mut paths, &TilePos::new(5, 2));
            assert_eq!(map.feature_at(5, 2), None);
        }
        if outcome != MoveOutcome::Moving {
            break;
        }
        ticks += 1;
    }
    assert_eq!(outcome, MoveOutcome::Arrived);
    assert!(ticks > 6, "the mine happened mid-walk");
    let arrived_at = TilePos::new((pos.x / 1000) as u32, (pos.y / 1000) as u32);
    assert!(town_sim::tile::is_neighbor(&arrived_at, &TilePos::new(9, 0)));
}

#[test]
fn blocked_waypoint_far_from_destination_fails() {
    // The next waypoint turns impassable mid-walk while the agent is far
    // from its destination: the step fails instead of walking through.
    let mut map = open_map(10, 10);
    let mut paths = MapPathfinding::new(&map);
    let dest = Destination::new(TilePos::new(9, 0), false);
    let start = TilePos::new(0, 0);
    let path = compute_path(&map, &paths, start, &dest).expect("open row is connected");
    let blocked = path[3];
    let mut pos = Position::at_tile_center(start);
    let mut mv = MoveToDestination::start(path, &map);
    let speed = Speed::new(5000);
    town_sim::execution::do_build(&mut map, &mut paths, &blocked, Features::StoneWall);
    let mut outcome = MoveOutcome::Moving;
    for _ in 0..10000 {
        outcome = move_to_destination(&map, &dest, &speed, 100, &mut pos, &mut mv);
        if outcome != MoveOutcome::Moving {
            break;
        }
    }
    assert_eq!(outcome, MoveOutcome::Failed);
}

#[test]
fn blocked_waypoint_next_to_destination_counts_as_arrival() {
    // The final approach tile turns impassable, but the agent already
    // stands adjacent to its true destination: that is an arrival, not a
    // failure.
    let mut map = open_map(6, 6);
    let dest = Destination::new(TilePos::new(3, 0), false);
    // A handmade path: (1,0), (2,0), (3,0).
    let path = vec![TilePos::new(1, 0), TilePos::new(2, 0), TilePos::new(3, 0)];
    let mut pos = Position::at_tile_center(TilePos::new(1, 0));
    let mut mv = MoveToDestination::start(path, &map);
    let speed = Speed::new(5000);
    // Walk until the agent reaches (2,0)'s center, adjacent to the
    // destination, with only the final waypoint left.
    for _ in 0..100 {
        move_to_destination(&map, &dest, &speed, 100, &mut pos, &mut mv);
        if pos.x == 2500 {
            break;
        }
    }
    assert_eq!(pos.x, 2500);
    // Now the remaining waypoint (3,0) turns impassable.
    map.set_feature(3, 0, Some(Features::StoneWall));
    let outcome = move_to_destination(&map, &dest, &speed, 100, &mut pos, &mut mv);
    assert_eq!(outcome, MoveOutcome::Arrived);
}

#[test]
fn chop_scenario_leaves_stump_and_regrowth_record() {
    // A chop order on a tree: the agent claims it, walks beside it, chops
    // it down to a stump, and hands back exactly one regrowth record for
    // that tile; ticking the record long enough regrows the tree.
    let mut map = open_map(10, 10);
    map.set_feature(5, 5, Some(Features::Tree));
    let mut paths = MapPathfinding::new(&map);
    let mut q = JobQueue::new();
    q.enqueue(Job::new(Jobs::Chop, TilePos::new(5, 5)));
    let waters: Vec<TilePos> = Vec::new();
    let mut growing: Vec<(TilePos, Growing)> = Vec::new();
    let mut v = Villager::new(
        Position::at_tile_center(TilePos::new(0, 0)),
        Speed::new(5000),
        Thirst::new(0, 0),
        Drink { per_second: 10000 },
        &map,
    );
    let mut done = false;
    for _ in 0..3000 {
        agent_tick(&mut v, &mut map, &mut paths, &mut q, &mut growing, &waters, 0, 100);
        if map.feature_at(5, 5) == Some(Features::TreeStump) {
            done = true;
            break;
        }
    }
    assert!(done, "the chop order never completed");
    assert!(v.has_job.is_none());
    assert_eq!(growing.len(), 1);
    assert_eq!(growing[0].0, TilePos::new(5, 5));
    assert_eq!(growing[0].1, Growing { speed: 5, progress: 0 });
    // Tick the regrowth record until the tree stands again.
    let (tile, mut timer) = growing.pop().unwrap();
    timer.speed = 50000;
    let mut regrown = false;
    for _ in 0..10 {
        if grow(&mut map, &paths, tile, &mut timer) {
            regrown = true;
            break;
        }
    }
    assert!(regrown);
    assert_eq!(map.feature_at(5, 5), Some(Features::Tree));
}
