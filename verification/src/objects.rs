//! Decorative point objects spawned over the map.

use vstd::prelude::*;

verus! {

/// A decorative object standing on a tile; never blocks movement.
#[derive(Clone, Copy, Debug, PartialEq, Eq, Structural)]
pub enum Objects {
    Tree,
    AppleTree,
}

impl Objects {
    pub open spec fn texture_spec(self) -> u32 {
        match self {
            Objects::Tree => 0,
            Objects::AppleTree => 7,
        }
    }

    /// The index of this object's texture in the tileset.
    pub fn texture(&self) -> (r: u32)
        ensures
            r == self.texture_spec(),
    {
        match self {
            Objects::Tree => 0,
            Objects::AppleTree => 7,
        }
    }

    /// Objects never make their tile impassable.
    pub fn is_obstacle(&self) -> (r: bool)
        ensures
            !r,
    {
        match self {
            Objects::Tree => false,
            Objects::AppleTree => false,
        }
    }
}

} // verus!
