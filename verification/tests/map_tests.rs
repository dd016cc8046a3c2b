use town_sim::biomes::Biomes;
use town_sim::features::Features;
use town_sim::map::GridMap;
use town_sim::objects::Objects;
use town_sim::tile::{is_neighbor, TilePos};

#[test]
fn structs_tile_xy_idx_round_trip() {
    let map = GridMap::new(1000, 1000);

    let idx = map.tile_xy_idx(100, 100);
    assert_eq!(idx, 100100);

    let tile_pos = map.idx_tile_xy(idx);
    assert_eq!(tile_pos.x, 100);
    assert_eq!(tile_pos.y, 100);
}

#[test]
fn map_tile_xy_idx_round_trip() {
    let map = GridMap::new(1000, 1000);

    let idx = map.tile_xy_idx(100, 100);
    assert_eq!(idx, 100100);

    let tile_pos = map.idx_tile_xy(idx);
    assert_eq!(tile_pos.x, 100);
    assert_eq!(tile_pos.y, 100);
}

#[test]
fn structs_is_neighbor_test() {
    assert!(is_neighbor(&TilePos::new(2, 2), &TilePos::new(2, 2)));

    assert!(is_neighbor(&TilePos::new(2, 2), &TilePos::new(2, 3)));
    assert!(is_neighbor(&TilePos::new(2, 2), &TilePos::new(2, 1)));
    assert!(is_neighbor(&TilePos::new(2, 2), &TilePos::new(3, 2)));
    assert!(is_neighbor(&TilePos::new(2, 2), &TilePos::new(1, 2)));

    assert!(is_neighbor(&TilePos::new(2, 2), &TilePos::new(3, 3)));
    assert!(is_neighbor(&TilePos::new(2, 2), &TilePos::new(1, 1)));
    assert!(is_neighbor(&TilePos::new(2, 2), &TilePos::new(1, 3)));
    assert!(is_neighbor(&TilePos::new(2, 2), &TilePos::new(3, 1)));

    assert!(!is_neighbor(&TilePos::new(2, 2), &TilePos::new(0, 0)));
    assert!(!is_neighbor(&TilePos::new(2, 2), &TilePos::new(0, 1)));
    assert!(!is_neighbor(&TilePos::new(2, 2), &TilePos::new(0, 2)));
    assert!(!is_neighbor(&TilePos::new(2, 2), &TilePos::new(0, 3)));
    assert!(!is_neighbor(&TilePos::new(2, 2), &TilePos::new(0, 4)));

    assert!(!is_neighbor(&TilePos::new(2, 2), &TilePos::new(4, 0)));
    assert!(!is_neighbor(&TilePos::new(2, 2), &TilePos::new(4, 1)));
    assert!(!is_neighbor(&TilePos::new(2, 2), &TilePos::new(4, 2)));
    assert!(!is_neighbor(&TilePos::new(2, 2), &TilePos::new(4, 3)));
    assert!(!is_neighbor(&TilePos::new(2, 2), &TilePos::new(4, 4)));

    assert!(!is_neighbor(&TilePos::new(2, 2), &TilePos::new(1, 0)));
    assert!(!is_neighbor(&TilePos::new(2, 2), &TilePos::new(2, 0)));
    assert!(!is_neighbor(&TilePos::new(2, 2), &TilePos::new(3, 0)));

    assert!(!is_neighbor(&TilePos::new(2, 2), &TilePos::new(1, 4)));
    assert!(!is_neighbor(&TilePos::new(2, 2), &TilePos::new(2, 4)));
    assert!(!is_neighbor(&TilePos::new(2, 2), &TilePos::new(3, 4)));
}

#[test]
fn map_is_neighbor_test() {
    assert!(is_neighbor(&TilePos::new(2, 2), &TilePos::new(2, 2)));

    assert!(is_neighbor(&TilePos::new(2, 2), &TilePos::new(2, 3)));
    assert!(is_neighbor(&TilePos::new(2, 2), &TilePos::new(2, 1)));
    assert!(is_neighbor(&TilePos::new(2, 2), &TilePos::new(3, 2)));
    assert!(is_neighbor(&TilePos::new(2, 2), &TilePos::new(1, 2)));

    assert!(is_neighbor(&TilePos::new(2, 2), &TilePos::new(3, 3)));
    assert!(is_neighbor(&TilePos::new(2, 2), &TilePos::new(1, 1)));
    assert!(is_neighbor(&TilePos::new(2, 2), &TilePos::new(1, 3)));
    assert!(is_neighbor(&TilePos::new(2, 2), &TilePos::new(3, 1)));

    assert!(!is_neighbor(&TilePos::new(2, 2), &TilePos::new(0, 0)));
    assert!(!is_neighbor(&TilePos::new(2, 2), &TilePos::new(0, 1)));
    assert!(!is_neighbor(&TilePos::new(2, 2), &TilePos::new(0, 2)));
    assert!(!is_neighbor(&TilePos::new(2, 2), &TilePos::new(0, 3)));
    assert!(!is_neighbor(&TilePos::new(2, 2), &TilePos::new(0, 4)));

    assert!(!is_neighbor(&TilePos::new(2, 2), &TilePos::new(4, 0)));
    assert!(!is_neighbor(&TilePos::new(2, 2), &TilePos::new(4, 1)));
    assert!(!is_neighbor(&TilePos::new(2, 2), &TilePos::new(4, 2)));
    assert!(!is_neighbor(&TilePos::new(2, 2), &TilePos::new(4, 3)));
    assert!(!is_neighbor(&TilePos::new(2, 2), &TilePos::new(4, 4)));

    assert!(!is_neighbor(&TilePos::new(2, 2), &TilePos::new(1, 0)));
    assert!(!is_neighbor(&TilePos::new(2, 2), &TilePos::new(2, 0)));
    assert!(!is_neighbor(&TilePos::new(2, 2), &TilePos::new(3, 0)));

    assert!(!is_neighbor(&TilePos::new(2, 2), &TilePos::new(1, 4)));
    assert!(!is_neighbor(&TilePos::new(2, 2), &TilePos::new(2, 4)));
    assert!(!is_neighbor(&TilePos::new(2, 2), &TilePos::new(3, 4)));
}

#[test]
fn biome_costs_and_flags() {
    assert_eq!(Biomes::Ocean.cost(), -1);
    assert_eq!(Biomes::Empty.cost(), -1);
    assert_eq!(Biomes::Grassland.cost(), 100);
    assert_eq!(Biomes::Snow.cost(), 170);
    assert_eq!(Biomes::Beach.cost(), 140);
    assert_eq!(Biomes::TemperateRainForest.cost(), 150);
    assert!(Biomes::Ocean.is_obstacle());
    assert!(Biomes::Empty.is_obstacle());
    assert!(!Biomes::Grassland.is_obstacle());
    assert!(Biomes::Ocean.is_water_source());
    assert!(!Biomes::Grassland.is_water_source());
    assert_eq!(Biomes::Ocean.tile_name(), "Ocean");
    assert_eq!(Biomes::Beach.tile_name(), "Desert");
    assert_eq!(Biomes::TropicalRainForest.tile_name(), "Forest");
    assert_eq!(Biomes::Grassland.texture(), 7);
    assert_eq!(Biomes::Ocean.texture(), 1);
}

#[test]
fn feature_costs_and_flags() {
    assert_eq!(Features::Wall.cost(), Some(-1));
    assert_eq!(Features::StoneWall.cost(), Some(-1));
    assert_eq!(Features::Road.cost(), Some(70));
    assert_eq!(Features::Tree.cost(), None);
    assert!(Features::Wall.is_obstacle());
    assert!(Features::StoneWall.is_obstacle());
    assert!(!Features::Tree.is_obstacle());
    assert!(!Features::Road.is_obstacle());
    assert!(Features::Tree.is_choppable());
    assert!(Features::CoconutTree.is_choppable());
    assert!(Features::Cactus.is_choppable());
    assert!(!Features::TreeStump.is_choppable());
    assert!(Features::StoneWall.is_mineable());
    assert!(Features::Rocks.is_mineable());
    assert!(!Features::Tree.is_mineable());
    assert!(Features::StoneWall.is_destructable());
    assert!(Features::Rocks.is_destructable());
    assert!(Features::Wall.is_destructable());
    assert!(Features::Floor.is_destructable());
    assert!(!Features::Tree.is_destructable());
    assert_eq!(Features::Tree.stump(), Some(Features::TreeStump));
    assert_eq!(Features::CoconutTree.stump(), Some(Features::CoconutTreeStump));
    assert_eq!(Features::Cactus.stump(), None);
    assert_eq!(Features::TreeStump.regrown(), Some(Features::Tree));
    assert_eq!(Features::CoconutTreeStump.regrown(), Some(Features::CoconutTree));
    assert_eq!(Features::Rocks.regrown(), None);
    assert_eq!(Features::Tree.tile_name(), "Tree");
    assert_eq!(Features::Wall.texture(), 24);
}

#[test]
fn object_flags() {
    assert_eq!(Objects::Tree.texture(), 0);
    assert_eq!(Objects::AppleTree.texture(), 7);
    assert!(!Objects::Tree.is_obstacle());
    assert!(!Objects::AppleTree.is_obstacle());
}

#[test]
fn passability_consistency() {
    let mut map = GridMap::new(4, 4);
    // Freshly built maps are empty terrain, which is impassable.
    assert!(!map.is_passable(1, 1));
    map.set_terrain(1, 1, Biomes::Grassland);
    assert!(map.is_passable(1, 1));
    assert_eq!(map.tile_cost(1, 1), 100);
    // An obstacle feature makes a passable tile impassable.
    map.set_feature(1, 1, Some(Features::Wall));
    assert!(!map.is_passable(1, 1));
    assert_eq!(map.feature_at(1, 1), Some(Features::Wall));
    // A non-obstacle feature does not.
    map.set_feature(1, 1, Some(Features::Tree));
    assert!(map.is_passable(1, 1));
    // Impassable terrain wins over any feature.
    map.set_terrain(2, 2, Biomes::Ocean);
    assert!(!map.is_passable(2, 2));
    // Off-map coordinates fail closed.
    assert!(!map.is_passable(4, 0));
    assert!(!map.is_passable(0, 4));
    assert_eq!(map.feature_at(9, 9), None);
    assert_eq!(map.tile_cost(9, 9), -1);
}

#[test]
fn neighbor_passable_checks_adjacent_tiles() {
    let mut map = GridMap::new(5, 5);
    for x in 0..5 {
        for y in 0..5 {
            map.set_terrain(x, y, Biomes::Grassland);
        }
    }
    // A blocked tile is still neighbor-passable from its surroundings.
    map.set_feature(2, 2, Some(Features::Wall));
    assert!(map.is_neighbor_passable(2, 2));
    // Wall in all 8 neighbors: no adjacent tile is passable.
    for dx in 0..3 {
        for dy in 0..3 {
            map.set_feature(1 + dx, 1 + dy, Some(Features::Wall));
        }
    }
    assert!(!map.is_neighbor_passable(2, 2));
}

#[test]
fn neighborhood_enumeration() {
    let map = GridMap::new(5, 5);
    let mut out: Vec<(usize, usize)> = Vec::new();
    map.neighborhood.get_all_neighbors((0, 0), &mut out);
    assert_eq!(out, vec![(1, 0), (1, 1), (0, 1)]);
    let mut out2: Vec<(usize, usize)> = Vec::new();
    map.neighborhood.get_all_neighbors((2, 2), &mut out2);
    assert_eq!(out2.len(), 8);
    assert!(out2.contains(&(1, 1)));
    assert!(out2.contains(&(3, 3)));
    assert!(!out2.contains(&(2, 2)));
}

#[test]
fn heuristic_values() {
    let map = GridMap::new(10, 10);
    // Straight line: 100 per tile.
    assert_eq!(map.neighborhood.heuristic((0, 0), (4, 0)), 400);
    // Diagonal: 142 per tile.
    assert_eq!(map.neighborhood.heuristic((0, 0), (3, 3)), 426);
    // Mixed: dx=3, dy=1 -> 100*4 - 58*1.
    assert_eq!(map.neighborhood.heuristic((0, 0), (3, 1)), 342);
    assert_eq!(map.neighborhood.heuristic((3, 1), (0, 0)), 342);
    assert_eq!(map.neighborhood.heuristic((5, 5), (5, 5)), 0);
}
