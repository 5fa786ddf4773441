//! Simulation core of a 2D arena game: a population of moving entities
//! (asteroids and lasers) lives inside a bounded, edge-wrapping arena; a
//! decaying interval timer ramps spawn difficulty over time, and transient
//! projectiles are culled after a fixed lifetime.
//!
//! All quantities are fixed-point integers: time in milliseconds, arena
//! coordinates and velocities in hundredths of a world unit, angles and
//! angular velocities in hundredths of a radian.

pub mod arena;
pub mod config;
pub mod laser;
mod rng;
pub mod spawn;
pub mod store;
pub mod timer;
pub mod world;
