//! Fixed constants of the simulation, in the library's integer units:
//! lengths in micro-units (1 unit = one scaled metre of world space, so a
//! micro-unit is 1e-6 of it), velocities in micro-units per second, masses in
//! tonnes, forces in micro-newtons, times in microseconds.

use vstd::prelude::*;

verus! {

/// Gravitational constant scaled by 1e12, per tonne:
/// `6.6743e-8 unit^3 / (tonne * s^2) == 66_743 * 1e-12`.
pub const G_E12: i64 = 66_743;

/// Softening length in milli-units (12.5 units), squared below.
pub const SOFTENING_MILLI: i64 = 12_500;

/// Square of `SOFTENING_MILLI`.
pub const SOFTENING_MILLI_SQ: i64 = 156_250_000;

/// Earth radius in micro-units (6_371_000 m at 1:20 scale).
pub const EARTH_RADIUS: i64 = 318_550_000_000;

/// Moon radius in micro-units (1_737_100 m at 1:20 scale).
pub const MOON_RADIUS: i64 = 86_855_000_000;

/// Moon orbit radius in micro-units (384_400_000 m at 1:50 scale).
pub const MOON_ORBIT_RADIUS: i64 = 7_688_000_000_000;

/// Number of samples in a trajectory prediction, including the start point.
pub const PREDICTION_POINTS: usize = 512;

/// Smallest predictor step, in microseconds (10 s).
pub const MIN_PREDICTION_DT: u64 = 10_000_000;

/// Largest predictor step, in microseconds (2048 s).
pub const MAX_PREDICTION_DT: u64 = 2_048_000_000;

/// A body slower than this (squared speed, micro-units^2/s^2) gets no
/// prediction.
pub const MIN_PREDICTION_SPEED_SQ: i64 = 2_000_000_000_000;

/// Minimum altitude of the low-orbit band above the surface (40 km).
pub const LEO_MIN_ALTITUDE: i64 = 40_000_000_000;

/// Time the low-orbit condition must hold continuously, in microseconds.
pub const LEO_REQUIRED_TIME: u64 = 1_000_000;

/// Altitude below which a landing is recorded (1 km).
pub const LANDING_TOLERANCE: i64 = 1_000_000_000;

/// Simulated time between objective checks, in microseconds (0.02 s).
pub const OBJECTIVE_CHECK_INTERVAL: u64 = 20_000;

/// Thrust-setting change per adjustment, in permille of full thrust.
pub const THRUST_ADJUSTMENT_STEP: i64 = 100;

/// No time warp below this Earth altitude (30 km).
pub const TIME_WARP_MIN_EARTH_ALTITUDE: i64 = 30_000_000_000;

/// Limited time warp below this Earth altitude (100 km).
pub const TIME_WARP_LIMITED_EARTH_ALTITUDE: i64 = 100_000_000_000;

/// No time warp below this Moon altitude (5 km).
pub const TIME_WARP_MIN_MOON_ALTITUDE: i64 = 5_000_000_000;

/// Limited time warp below this Moon altitude (30 km).
pub const TIME_WARP_LIMITED_MOON_ALTITUDE: i64 = 30_000_000_000;

/// Most recorded past positions kept per body.
pub const MAX_TRAIL_LENGTH: usize = 512;

/// Collision restitution, as the ratio `RESTITUTION_NUM / RESTITUTION_DEN`.
pub const RESTITUTION_NUM: i64 = 1;

/// Denominator of the restitution ratio.
pub const RESTITUTION_DEN: i64 = 10;

/// An orbit counts as tangential when `|r.v| * ORBITAL_DOT_DEN <
/// ORBITAL_DOT_NUM * |r| * |v|` (threshold 0.3).
pub const ORBITAL_DOT_NUM: i64 = 3;

/// Denominator of the tangential-velocity threshold.
pub const ORBITAL_DOT_DEN: i64 = 10;

/// Positions are kept within this magnitude per axis.
pub const POS_LIMIT: i64 = 1_000_000_000_000_000;

/// Velocities are kept within this magnitude per axis.
pub const VEL_LIMIT: i64 = 10_000_000_000_000;

/// Largest admissible mass, in tonnes.
pub const MASS_LIMIT: i64 = 1_000_000_000_000_000_000;

/// Largest admissible body radius.
pub const RADIUS_LIMIT: i64 = 10_000_000_000_000;

/// Accumulated forces are kept within this magnitude per axis.
pub const FORCE_LIMIT: i64 = 10_000_000_000_000_000;

/// Largest admissible integrator timestep, in microseconds.
pub const DT_LIMIT: u64 = 4_000_000_000;

/// Largest admissible body count.
pub const MAX_BODIES: usize = 4096;

/// Bound on a single source's acceleration contribution per axis:
/// `MASS_LIMIT * G_E12 / SOFTENING_MILLI_SQ` rounded up.
pub const ACCEL_LIMIT: i64 = 428_000_000_000_000;

/// Bound on a net acceleration per axis: `MAX_BODIES * ACCEL_LIMIT`.
pub const NET_ACCEL_LIMIT: i64 = 1_753_088_000_000_000_000;

/// Largest admissible fuel quantity, in micrograms.
pub const FUEL_LIMIT: i64 = 1_000_000_000_000_000_000;

/// Largest admissible fuel-consumption rate, micrograms per second.
pub const RATE_LIMIT: i64 = 1_000_000_000_000_000;

/// Largest admissible engine thrust, in micro-newtons.
pub const THRUST_LIMIT: i64 = 1_000_000_000_000_000;

/// Micro-units per milli-unit.
pub const MILLI: i64 = 1_000;

} // verus!
