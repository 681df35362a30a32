//! A deterministic, fixed-point orbital-mechanics core: an n-body gravity
//! integrator with central-body resolution, swept-sphere collision response,
//! trajectory prediction, propulsion and fuel accounting, time-warp staging,
//! and an ordered mission-objective state machine.
//!
//! All physical quantities are integers in fixed units so that every result
//! is exactly specified: positions in micro-units (1e-6 of a base length
//! unit), velocities in micro-units per second, masses in tonnes, forces in
//! micro-newtons, and times in microseconds.

pub mod apply_force;
pub mod collision;
pub mod config;
pub mod constants;
pub mod gravity;
pub mod markers;
pub mod num;
pub mod objectives;
pub mod physics_object;
pub mod prediction;
pub mod propulsion;
pub mod timewarp;
pub mod trail;
pub mod ui;
pub mod vec3;
