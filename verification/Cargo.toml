[package]
name = "town_sim"
version = "0.1.0"
edition = "2021"
publish = false

[dependencies]
hierarchical_pathfinding = "*"
pathfinding = "*"
