//! Terrain types: one biome per tile, fixed at generation time.

use vstd::prelude::*;

verus! {

/// The closed set of terrain types. Each has a fixed movement cost
/// (100 is the baseline) or is impassable (ocean, empty).
#[derive(Debug, Clone, Copy, PartialEq, Eq, Structural)]
pub enum Biomes {
    Ocean,
    Beach,
    Scorched,
    Stone,
    Snow,
    Taiga,
    Tundra,
    TemperateDesert,
    Shrubland,
    Grassland,
    TemperateDeciduousForest,
    TemperateRainForest,
    SubtropicalDesert,
    TropicalSeasonalForest,
    TropicalRainForest,
    Empty,
}

impl Biomes {
    pub open spec fn tile_name_spec(self) -> Seq<char> {
        match self {
            Biomes::Ocean => "Ocean"@,
            Biomes::Beach | Biomes::TemperateDesert | Biomes::SubtropicalDesert => "Desert"@,
            Biomes::Scorched => "Scorched"@,
            Biomes::Stone => "Stone"@,
            Biomes::Snow => "Snow"@,
            Biomes::Taiga => "Taiga"@,
            Biomes::Tundra => "Tundra"@,
            Biomes::Shrubland => "Shrubland"@,
            Biomes::Grassland => "Grassland"@,
            Biomes::TemperateDeciduousForest
            | Biomes::TemperateRainForest
            | Biomes::TropicalSeasonalForest
            | Biomes::TropicalRainForest => "Forest"@,
            Biomes::Empty => "Empty"@,
        }
    }

    /// The display name of the terrain; biome families share one name.
    pub fn tile_name(&self) -> (r: &str)
        ensures
            r@ == self.tile_name_spec(),
    {
        match self {
            Biomes::Ocean => "Ocean",
            Biomes::Beach | Biomes::TemperateDesert | Biomes::SubtropicalDesert => "Desert",
            Biomes::Scorched => "Scorched",
            Biomes::Stone => "Stone",
            Biomes::Snow => "Snow",
            Biomes::Taiga => "Taiga",
            Biomes::Tundra => "Tundra",
            Biomes::Shrubland => "Shrubland",
            Biomes::Grassland => "Grassland",
            Biomes::TemperateDeciduousForest
            | Biomes::TemperateRainForest
            | Biomes::TropicalSeasonalForest
            | Biomes::TropicalRainForest => "Forest",
            Biomes::Empty => "Empty",
        }
    }

    pub open spec fn cost_spec(self) -> int {
        match self {
            Biomes::Ocean => -1,
            Biomes::Beach => 140,
            Biomes::Scorched => 140,
            Biomes::Stone => 100,
            Biomes::Snow => 170,
            Biomes::Taiga => 100,
            Biomes::Tundra => 140,
            Biomes::TemperateDesert => 170,
            Biomes::SubtropicalDesert => 170,
            Biomes::Shrubland => 100,
            Biomes::Grassland => 100,
            Biomes::TemperateDeciduousForest => 150,
            Biomes::TemperateRainForest => 150,
            Biomes::TropicalSeasonalForest => 150,
            Biomes::TropicalRainForest => 150,
            Biomes::Empty => -1,
        }
    }

    /// The movement cost of walking over this terrain; -1 marks impassable
    /// terrain, and every passable terrain costs between 100 and 170.
    pub fn cost(&self) -> (r: isize)
        ensures
            r == self.cost_spec(),
            r == -1 || (100 <= r <= 170),
    {
        match self {
            Biomes::Ocean => -1,
            Biomes::Beach => 140,
            Biomes::Scorched => 140,
            Biomes::Stone => 100,
            Biomes::Snow => 170,
            Biomes::Taiga => 100,
            Biomes::Tundra => 140,
            Biomes::TemperateDesert => 170,
            Biomes::SubtropicalDesert => 170,
            Biomes::Shrubland => 100,
            Biomes::Grassland => 100,
            Biomes::TemperateDeciduousForest => 150,
            Biomes::TemperateRainForest => 150,
            Biomes::TropicalSeasonalForest => 150,
            Biomes::TropicalRainForest => 150,
            Biomes::Empty => -1,
        }
    }

    pub open spec fn is_obstacle_spec(self) -> bool {
        self.cost_spec() == -1
    }

    /// Terrain is an obstacle exactly when its cost is the impassable sentinel.
    pub fn is_obstacle(&self) -> (r: bool)
        ensures
            r == self.is_obstacle_spec(),
    {
        self.cost() == -1
    }

    pub open spec fn is_water_source_spec(self) -> bool {
        self == Biomes::Ocean
    }

    /// Agents can drink from ocean tiles.
    pub fn is_water_source(&self) -> (r: bool)
        ensures
            r == self.is_water_source_spec(),
    {
        matches!(self, Biomes::Ocean)
    }

    pub open spec fn texture_spec(self) -> u32 {
        match self {
            Biomes::Shrubland => 6,
            Biomes::Grassland => 7,
            Biomes::Ocean => 1,
            Biomes::TemperateDeciduousForest => 12,
            Biomes::TemperateRainForest => 12,
            Biomes::TropicalSeasonalForest => 12,
            Biomes::TropicalRainForest => 12,
            Biomes::Stone => 24,
            Biomes::Snow => 11,
            Biomes::Taiga => 9,
            Biomes::Tundra => 10,
            Biomes::Beach => 18,
            Biomes::TemperateDesert => 18,
            Biomes::SubtropicalDesert => 18,
            Biomes::Scorched => 8,
            Biomes::Empty => 0,
        }
    }

    /// The index of this terrain's tile texture in the tileset.
    pub fn texture(&self) -> (r: u32)
        ensures
            r == self.texture_spec(),
    {
        match self {
            Biomes::Shrubland => 6,
            Biomes::Grassland => 7,
            Biomes::Ocean => 1,
            Biomes::TemperateDeciduousForest => 12,
            Biomes::TemperateRainForest => 12,
            Biomes::TropicalSeasonalForest => 12,
            Biomes::TropicalRainForest => 12,
            Biomes::Stone => 24,
            Biomes::Snow => 11,
            Biomes::Taiga => 9,
            Biomes::Tundra => 10,
            Biomes::Beach => 18,
            Biomes::TemperateDesert => 18,
            Biomes::SubtropicalDesert => 18,
            Biomes::Scorched => 8,
            Biomes::Empty => 0,
        }
    }
}

} // verus!
