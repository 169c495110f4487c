//! Simulation core of a small tile-based side-scrolling platformer.
//!
//! Positions and velocities are fixed-point numbers (see [`units`]); the
//! screen, the tile map and the collision rectangles are whole pixels.
pub mod geometry;
pub mod units;
pub mod sprites;
pub mod mapgen;
pub mod ratelimiter;
pub mod world;
