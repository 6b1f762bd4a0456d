//! Core simulation engine for a small orbital-defense arcade game.
//!
//! A player orbits a central planet and fires projectiles at enemies that
//! arrive in timed waves from a surrounding ring. This crate holds the
//! verified gameplay logic: countdown timers, the orbital-motion model,
//! wave generation and pacing, collision resolution (mark) and lifecycle
//! cleanup (sweep). Rendering, input polling and the physics engine are
//! external collaborators; they exchange plain values with this library.
//!
//! All quantities are fixed-point integers: time in milliseconds, angles in
//! microradians, health in whole hit points, enemy orbital speed in
//! thousandths of a unit.

pub mod challenge;
pub mod cleanup;
pub mod collision;
pub mod entities;
pub mod motion;
pub mod player;
pub mod rng;
pub mod spawner;
pub mod timer;
pub mod world;
