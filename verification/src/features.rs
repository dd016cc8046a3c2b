//! Point features: the mutable overlay on top of the terrain grid.

use vstd::prelude::*;

verus! {

/// A feature occupying a tile: vegetation, rock, or something built.
/// Features are the only part of the grid map that changes during play.
#[derive(Clone, Copy, Debug, PartialEq, Eq, Hash, Structural)]
pub enum Features {
    TreeStump,
    Tree,
    AppleTree,
    AppleTreeEmpty,
    CoconutTreeStump,
    CoconutTree,
    Cactus,
    BerryBush,
    BerryBushEmpty,
    Rocks,
    StoneWall,
    Wall,
    Floor,
    Door,
    Road,
}

impl Features {
    pub open spec fn tile_name_spec(self) -> Seq<char> {
        match self {
            Features::TreeStump => "TreeStump"@,
            Features::Tree => "Tree"@,
            Features::AppleTree => "AppleTree"@,
            Features::AppleTreeEmpty => "AppleTreeEmpty"@,
            Features::CoconutTreeStump => "CoconutTreeStump"@,
            Features::CoconutTree => "CoconutTree"@,
            Features::Cactus => "Cactus"@,
            Features::BerryBush => "BerryBush"@,
            Features::BerryBushEmpty => "BerryBushEmpty"@,
            Features::Rocks => "Rocks"@,
            Features::StoneWall => "StoneWall"@,
            Features::Wall => "Wall"@,
            Features::Floor => "Floor"@,
            Features::Door => "Door"@,
            Features::Road => "Road"@,
        }
    }

    /// The display name of the feature.
    pub fn tile_name(&self) -> (r: &str)
        ensures
            r@ == self.tile_name_spec(),
    {
        match self {
            Features::TreeStump => "TreeStump",
            Features::Tree => "Tree",
            Features::AppleTree => "AppleTree",
            Features::AppleTreeEmpty => "AppleTreeEmpty",
            Features::CoconutTreeStump => "CoconutTreeStump",
            Features::CoconutTree => "CoconutTree",
            Features::Cactus => "Cactus",
            Features::BerryBush => "BerryBush",
            Features::BerryBushEmpty => "BerryBushEmpty",
            Features::Rocks => "Rocks",
            Features::StoneWall => "StoneWall",
            Features::Wall => "Wall",
            Features::Floor => "Floor",
            Features::Door => "Door",
            Features::Road => "Road",
        }
    }

    pub open spec fn cost_spec(self) -> Option<int> {
        match self {
            Features::StoneWall | Features::Wall => Some(-1int),
            Features::Road => Some(70int),
            _ => None,
        }
    }

    /// A feature's own movement cost, where it overrides the terrain's:
    /// walls are impassable, roads are cheaper than any terrain.
    pub fn cost(&self) -> (r: Option<isize>)
        ensures
            match r {
                Some(c) => Some(c as int) =~= self.cost_spec(),
                None => self.cost_spec() is None,
            },
    {
        match self {
            Features::StoneWall | Features::Wall => Some(-1),
            Features::Road => Some(70),
            _ => None,
        }
    }

    pub open spec fn is_obstacle_spec(self) -> bool {
        self.cost_spec() == Some(-1int)
    }

    /// A feature is an obstacle exactly when its own cost is the
    /// impassable sentinel.
    pub fn is_obstacle(&self) -> (r: bool)
        ensures
            r == self.is_obstacle_spec(),
    {
        matches!(self, Features::StoneWall | Features::Wall)
    }

    pub open spec fn is_choppable_spec(self) -> bool {
        self == Features::Tree || self == Features::CoconutTree || self == Features::Cactus
    }

    /// Chop jobs may target these features.
    pub fn is_choppable(&self) -> (r: bool)
        ensures
            r == self.is_choppable_spec(),
    {
        matches!(self, Features::Tree | Features::CoconutTree | Features::Cactus)
    }

    pub open spec fn is_mineable_spec(self) -> bool {
        self == Features::StoneWall || self == Features::Rocks
    }

    /// Mine jobs may target these features.
    pub fn is_mineable(&self) -> (r: bool)
        ensures
            r == self.is_mineable_spec(),
    {
        matches!(self, Features::StoneWall | Features::Rocks)
    }

    pub open spec fn is_destructable_spec(self) -> bool {
        self == Features::StoneWall || self == Features::Rocks || self == Features::Wall
            || self == Features::Floor
    }

    /// Clear jobs may remove these features.
    pub fn is_destructable(&self) -> (r: bool)
        ensures
            r == self.is_destructable_spec(),
    {
        matches!(self, Features::StoneWall | Features::Rocks | Features::Wall | Features::Floor)
    }

    pub open spec fn stump_spec(self) -> Option<Features> {
        match self {
            Features::Tree => Some(Features::TreeStump),
            Features::CoconutTree => Some(Features::CoconutTreeStump),
            _ => None,
        }
    }

    /// The stump a chopped feature leaves behind, if it has one;
    /// chopping a feature without a stump removes it entirely.
    pub fn stump(&self) -> (r: Option<Features>)
        ensures
            r == self.stump_spec(),
    {
        match self {
            Features::Tree => Some(Features::TreeStump),
            Features::CoconutTree => Some(Features::CoconutTreeStump),
            _ => None,
        }
    }

    pub open spec fn regrown_spec(self) -> Option<Features> {
        match self {
            Features::TreeStump => Some(Features::Tree),
            Features::CoconutTreeStump => Some(Features::CoconutTree),
            _ => None,
        }
    }

    /// What a growing stump turns back into once regrowth completes.
    pub fn regrown(&self) -> (r: Option<Features>)
        ensures
            r == self.regrown_spec(),
    {
        match self {
            Features::TreeStump => Some(Features::Tree),
            Features::CoconutTreeStump => Some(Features::CoconutTree),
            _ => None,
        }
    }

    pub open spec fn texture_spec(self) -> u32 {
        match self {
            Features::Tree => 4,
            Features::AppleTree => 1,
            Features::AppleTreeEmpty => 2,
            Features::CoconutTree => 7,
            Features::Cactus => 12,
            Features::BerryBush => 10,
            Features::BerryBushEmpty => 11,
            Features::TreeStump => 3,
            Features::CoconutTreeStump => 6,
            Features::Rocks => 15,
            Features::StoneWall => 18,
            Features::Wall => 24,
            Features::Floor => 21,
            Features::Door => 25,
            Features::Road => 22,
        }
    }

    /// The index of this feature's tile texture in the tileset.
    pub fn texture(&self) -> (r: u32)
        ensures
            r == self.texture_spec(),
    {
        match self {
            Features::Tree => 4,
            Features::AppleTree => 1,
            Features::AppleTreeEmpty => 2,
            Features::CoconutTree => 7,
            Features::Cactus => 12,
            Features::BerryBush => 10,
            Features::BerryBushEmpty => 11,
            Features::TreeStump => 3,
            Features::CoconutTreeStump => 6,
            Features::Rocks => 15,
            Features::StoneWall => 18,
            Features::Wall => 24,
            Features::Floor => 21,
            Features::Door => 25,
            Features::Road => 22,
        }
    }
}

} // verus!
