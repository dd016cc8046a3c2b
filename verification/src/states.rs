//! Top-level session states the host application moves through.

use vstd::prelude::*;

verus! {

/// The phases of a running session: loading assets, generating the map,
/// and playing.
#[derive(Clone, Copy, Debug, PartialEq, Eq, Hash, Structural)]
pub enum GameStates {
    AssetLoading,
    MapGeneration,
    InGame,
}

} // verus!
