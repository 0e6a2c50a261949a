//! Simulation core of a 2D arcade shoot-'em-up.
//!
//! Lengths and positions are fixed-point integers in thousandths of a
//! pixel, speeds are in thousandths of a pixel per second, and durations
//! are in microseconds.
pub mod geometry;
pub mod shape;
pub mod random;
pub mod enemy;
pub mod enemies;
pub mod hero;
pub mod bullet;
pub mod scores;
pub mod game;
