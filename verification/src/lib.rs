//! Spatial simulation core for a tile-based town: a terrain/feature grid map,
//! 8-directional neighborhood helpers, a hierarchical path cache with verified
//! path validation, a FIFO job queue, and the villager behavior state machine
//! that drinks, wanders, claims jobs, walks to them and performs them.

pub mod agent;
pub mod astar;
pub mod biomes;
pub mod execution;
pub mod features;
pub mod jobs;
pub mod map;
pub mod movement;
pub mod neighborhood;
pub mod objects;
pub mod orders;
pub mod pathfinding;
pub mod simulation;
pub mod states;
pub mod tile;
