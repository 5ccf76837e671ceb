//! Simulation core of a small real-time arcade game.
//!
//! The crate keeps the discrete part of the game state (which entities
//! exist, ammunition, score, cooldowns, projectile lifetimes, grid positions)
//! and the rules that change it once per tick.  Every rule is an executable
//! function whose contract is stated over a mathematical view of the state.
//!
//! Continuous kinematics (velocities, headings, visual jitter) belong to the
//! host, which reports positions on an integer grid before the collision
//! phase runs.

pub mod geometry;
pub mod input;
pub mod laws;
pub mod player;
pub mod random;
pub mod reset;
pub mod timer;
pub mod world;
