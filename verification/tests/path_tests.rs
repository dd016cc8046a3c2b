use town_sim::astar::get_path_passable;
use town_sim::biomes::Biomes;
use town_sim::features::Features;
use town_sim::map::GridMap;
use town_sim::pathfinding::{validate_chain, validate_path, MapPathfinding};
use town_sim::tile::{is_neighbor, TilePos};

fn open_map(height: u32, width: u32) -> GridMap {
    let mut map = GridMap::new(height, width);
    for x in 0..width {
        for y in 0..height {
            map.set_terrain(x, y, Biomes::Grassland);
        }
    }
    map
}

fn assert_path_valid(map: &GridMap, path: &[TilePos]) {
    assert!(!path.is_empty());
    for w in path {
        assert!(map.is_passable(w.x, w.y), "waypoint {:?} not passable", w);
    }
    for pair in path.windows(2) {
        assert!(is_neighbor(&pair[0], &pair[1]), "{:?} and {:?} not adjacent", pair[0], pair[1]);
    }
}

#[test]
fn cache_path_is_valid() {
    let map = open_map(10, 10);
    let paths = MapPathfinding::new(&map);
    let p = paths
        .get_path(&map, TilePos::new(0, 0), TilePos::new(9, 9))
        .expect("open grid must be connected");
    assert_path_valid(&map, &p);
    assert_eq!(p[0], TilePos::new(0, 0));
    assert_eq!(*p.last().unwrap(), TilePos::new(9, 9));
}

#[test]
fn cache_path_same_tile() {
    let map = open_map(6, 6);
    let paths = MapPathfinding::new(&map);
    let p = paths
        .get_path(&map, TilePos::new(3, 3), TilePos::new(3, 3))
        .expect("a tile reaches itself");
    assert_path_valid(&map, &p);
    assert_eq!(p[0], TilePos::new(3, 3));
    assert_eq!(*p.last().unwrap(), TilePos::new(3, 3));
}

#[test]
fn cache_no_path_through_full_wall() {
    let mut map = open_map(8, 8);
    // A full vertical wall of impassable terrain splits the map.
    for y in 0..8 {
        map.set_terrain(4, y, Biomes::Ocean);
    }
    let paths = MapPathfinding::new(&map);
    assert!(paths.get_path(&map, TilePos::new(0, 0), TilePos::new(7, 7)).is_none());
}

#[test]
fn invalidation_after_feature_change() {
    // A one-tile corridor at (4, 4); walls elsewhere in the column.
    let mut map = open_map(9, 9);
    for y in 0..9 {
        if y != 4 {
            map.set_feature(4, y, Some(Features::StoneWall));
        }
    }
    let mut paths = MapPathfinding::new(&map);
    let p = paths
        .get_path(&map, TilePos::new(0, 4), TilePos::new(8, 4))
        .expect("corridor is open");
    assert_path_valid(&map, &p);
    assert!(p.contains(&TilePos::new(4, 4)), "the only corridor runs through (4,4)");

    // Close the corridor and notify the cache: no path may use (4,4).
    map.set_feature(4, 4, Some(Features::StoneWall));
    paths.announce_tile_changed(&map, &TilePos::new(4, 4));
    match paths.get_path(&map, TilePos::new(0, 4), TilePos::new(8, 4)) {
        None => {},
        Some(p2) => {
            assert!(!p2.contains(&TilePos::new(4, 4)));
            assert_path_valid(&map, &p2);
        },
    }
}

#[test]
fn reopening_a_corridor_updates_the_cache() {
    let mut map = open_map(9, 9);
    for y in 0..9 {
        map.set_feature(4, y, Some(Features::StoneWall));
    }
    let mut paths = MapPathfinding::new(&map);
    assert!(paths.get_path(&map, TilePos::new(0, 4), TilePos::new(8, 4)).is_none());

    // Clearing one wall tile (with its notification) reopens the corridor.
    town_sim::execution::do_clear(&mut map, &mut paths, &TilePos::new(4, 4));
    let p = paths
        .get_path(&map, TilePos::new(0, 4), TilePos::new(8, 4))
        .expect("corridor reopened");
    assert_path_valid(&map, &p);
}

#[test]
fn astar_path_is_valid() {
    let map = open_map(10, 10);
    let p = get_path_passable(&TilePos::new(0, 0), &map, &TilePos::new(9, 0), false)
        .expect("open grid must be connected");
    assert_path_valid(&map, &p);
    assert_eq!(p[0], TilePos::new(0, 0));
    assert_eq!(*p.last().unwrap(), TilePos::new(9, 0));
    // A straight unobstructed run needs exactly one waypoint per tile.
    assert_eq!(p.len(), 10);
}

#[test]
fn astar_respects_walls() {
    let mut map = open_map(8, 8);
    for y in 0..8 {
        map.set_terrain(4, y, Biomes::Ocean);
    }
    assert!(get_path_passable(&TilePos::new(0, 0), &map, &TilePos::new(7, 7), false).is_none());
}

#[test]
fn astar_approximate_reaches_a_neighbor() {
    let mut map = open_map(8, 8);
    // The target itself is blocked; approximate arrival stops beside it.
    map.set_feature(5, 5, Some(Features::StoneWall));
    let dest = TilePos::new(5, 5);
    assert!(get_path_passable(&TilePos::new(0, 0), &map, &dest, false).is_none());
    let p = get_path_passable(&TilePos::new(0, 0), &map, &dest, true)
        .expect("a neighbor of the target is reachable");
    assert_path_valid(&map, &p);
    let last = *p.last().unwrap();
    assert!(is_neighbor(&last, &dest));
    assert!(last != dest);
}

#[test]
fn passable_neighbors_costs() {
    let mut map = open_map(5, 5);
    map.set_terrain(2, 2, Biomes::Snow);
    map.set_feature(1, 1, Some(Features::Wall));
    let succ = map.get_passable_neighbors(1, 2);
    // (1,1) is walled off; the other seven neighbors remain.
    assert_eq!(succ.len(), 7);
    // Cardinal step onto Snow costs its full 170.
    assert_eq!(seek(&succ, TilePos::new(2, 2)), 170);
    // Cardinal step onto Grassland costs 100.
    assert_eq!(seek(&succ, TilePos::new(0, 2)), 100);
    // Diagonal steps cost 145% of the tile's cost.
    assert_eq!(seek(&succ, TilePos::new(2, 3)), 145);
    assert_eq!(seek(&succ, TilePos::new(2, 1)), 145);
}

fn seek(succ: &[(TilePos, u32)], t: TilePos) -> u32 {
    succ.iter().find(|(s, _)| *s == t).unwrap().1
}

#[test]
fn validate_path_checks_every_condition() {
    let mut map = open_map(6, 6);
    map.set_feature(2, 0, Some(Features::Wall));
    let a = TilePos::new(0, 0);
    let b = TilePos::new(1, 0);
    let c = TilePos::new(2, 0);
    let d = TilePos::new(4, 0);
    // A proper adjacent, passable chain.
    assert!(validate_chain(&map, &vec![a, b]));
    assert!(validate_path(&map, &vec![a, b], a, b));
    // A gap between waypoints is rejected.
    assert!(!validate_chain(&map, &vec![a, d]));
    // An impassable waypoint is rejected.
    assert!(!validate_chain(&map, &vec![b, c]));
    // Wrong endpoints are rejected.
    assert!(!validate_path(&map, &vec![a, b], b, b));
    assert!(!validate_path(&map, &vec![a, b], a, a));
    assert!(!validate_path(&map, &Vec::new(), a, b));
}

#[test]
fn no_path_from_a_blocked_start() {
    let mut map = open_map(6, 6);
    map.set_feature(0, 0, Some(Features::StoneWall));
    let paths = MapPathfinding::new(&map);
    assert!(paths.get_path(&map, TilePos::new(0, 0), TilePos::new(5, 5)).is_none());
}
