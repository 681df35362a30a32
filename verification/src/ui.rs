//! The values behind the user-facing status display: fuel state, the
//! reference body the craft is nearest to, altitude above its surface,
//! speed relative to it, and whether the altitude admits time warp. The
//! surrounding application only formats what this module computes.

use vstd::prelude::*;

use crate::constants::{
    EARTH_RADIUS, FUEL_LIMIT, MOON_RADIUS, POS_LIMIT, TIME_WARP_LIMITED_EARTH_ALTITUDE,
    TIME_WARP_LIMITED_MOON_ALTITUDE, TIME_WARP_MIN_EARTH_ALTITUDE, TIME_WARP_MIN_MOON_ALTITUDE,
    VEL_LIMIT,
};
use crate::num::{isqrt, lemma_sqrt_floor_le, lemma_sqrt_floor_props, sqrt_floor};
use crate::physics_object::{all_wf, Body};
use crate::vec3::{dist_sq, dist_sq_i128, norm_sq, norm_sq_i128, Vec3i};

verus! {

/// How much fuel is left, in the display's coarse bands.
#[derive(Clone, Copy, Debug, PartialEq, Eq, Structural)]
pub enum FuelLevel {
    /// No fuel at all.
    Empty,
    /// At most a tenth of capacity.
    Critical,
    /// At most a quarter of capacity.
    Low,
    /// More than a quarter of capacity.
    Sufficient,
}

/// Whether the current altitude admits time warp.
#[derive(Clone, Copy, Debug, PartialEq, Eq, Structural)]
pub enum WarpAvailability {
    /// Below the minimum safe altitude: no warp.
    Blocked,
    /// Below the higher threshold: limited warp.
    Limited,
    /// High enough for full warp.
    Full,
}

/// The fuel band: empty at zero, critical up to a tenth of capacity, low up
/// to a quarter, sufficient above.
pub open spec fn fuel_level_spec(fuel: i64, max_fuel: i64) -> FuelLevel {
    if fuel <= 0 {
        FuelLevel::Empty
    } else if 10 * fuel <= max_fuel {
        FuelLevel::Critical
    } else if 4 * fuel <= max_fuel {
        FuelLevel::Low
    } else {
        FuelLevel::Sufficient
    }
}

/// Computes the fuel band.
pub fn fuel_level(fuel: i64, max_fuel: i64) -> (r: FuelLevel)
    requires
        0 < max_fuel <= FUEL_LIMIT,
        0 <= fuel <= max_fuel,
    ensures
        r == fuel_level_spec(fuel, max_fuel),
{
    if fuel <= 0 {
        FuelLevel::Empty
    } else if 10 * (fuel as i128) <= max_fuel as i128 {
        FuelLevel::Critical
    } else if 4 * (fuel as i128) <= max_fuel as i128 {
        FuelLevel::Low
    } else {
        FuelLevel::Sufficient
    }
}

/// The warp band for an altitude above the reference body's surface.
pub open spec fn warp_availability_spec(altitude: int, is_moon_central: bool) -> WarpAvailability {
    if is_moon_central {
        if altitude < TIME_WARP_MIN_MOON_ALTITUDE {
            WarpAvailability::Blocked
        } else if altitude < TIME_WARP_LIMITED_MOON_ALTITUDE {
            WarpAvailability::Limited
        } else {
            WarpAvailability::Full
        }
    } else {
        if altitude < TIME_WARP_MIN_EARTH_ALTITUDE {
            WarpAvailability::Blocked
        } else if altitude < TIME_WARP_LIMITED_EARTH_ALTITUDE {
            WarpAvailability::Limited
        } else {
            WarpAvailability::Full
        }
    }
}

/// Computes the warp band.
pub fn warp_availability(altitude: i64, is_moon_central: bool) -> (r: WarpAvailability)
    ensures
        r == warp_availability_spec(altitude as int, is_moon_central),
{
    if is_moon_central {
        if altitude < TIME_WARP_MIN_MOON_ALTITUDE {
            WarpAvailability::Blocked
        } else if altitude < TIME_WARP_LIMITED_MOON_ALTITUDE {
            WarpAvailability::Limited
        } else {
            WarpAvailability::Full
        }
    } else {
        if altitude < TIME_WARP_MIN_EARTH_ALTITUDE {
            WarpAvailability::Blocked
        } else if altitude < TIME_WARP_LIMITED_EARTH_ALTITUDE {
            WarpAvailability::Limited
        } else {
            WarpAvailability::Full
        }
    }
}

/// Scan for the non-user body nearest to `pos`, keeping its distance and
/// velocity; strictly-closer wins, the first match is kept on ties.
pub open spec fn closest_non_user(s: Seq<Body>, pos: Vec3i, i: int, best_d: i64, best_v: Vec3i) -> (
    i64,
    Vec3i,
)
    decreases s.len() - i,
{
    if i < 0 || i >= s.len() {
        (best_d, best_v)
    } else if s[i].is_user {
        closest_non_user(s, pos, i + 1, best_d, best_v)
    } else {
        let d = sqrt_floor(dist_sq(s[i].pos, pos)) as i64;
        if d < best_d {
            closest_non_user(s, pos, i + 1, d, s[i].phys.vel)
        } else {
            closest_non_user(s, pos, i + 1, best_d, best_v)
        }
    }
}

/// What the user display shows about the craft's situation.
#[derive(Clone, Copy, Debug, PartialEq, Eq, Structural)]
pub struct UserReadout {
    /// Altitude above the reference body's surface, micro-units; negative
    /// when inside it.
    pub altitude: i64,
    /// Whether the reference body is a moon rather than Earth.
    pub is_moon_central: bool,
    /// Speed relative to the reference body, micro-units per second.
    pub relative_speed: i64,
    /// Whether that altitude admits time warp.
    pub warp: WarpAvailability,
}

/// The craft's situation readout: the nearest non-user body is the
/// reference when strictly nearer than Earth's centre at the origin, else
/// Earth at rest is; altitude and relative speed are taken against it.
pub open spec fn user_readout_spec(pos: Vec3i, vel: Vec3i, s: Seq<Body>) -> UserReadout {
    let de = sqrt_floor(norm_sq(pos)) as i64;
    let c = closest_non_user(s, pos, 0, i64::MAX, Vec3i { x: 0, y: 0, z: 0 });
    if c.0 < de {
        let rv = Vec3i {
            x: (vel.x - c.1.x) as i64,
            y: (vel.y - c.1.y) as i64,
            z: (vel.z - c.1.z) as i64,
        };
        let altitude = c.0 - MOON_RADIUS;
        UserReadout {
            altitude: altitude as i64,
            is_moon_central: true,
            relative_speed: sqrt_floor(norm_sq(rv)) as i64,
            warp: warp_availability_spec(altitude as int, true),
        }
    } else {
        let altitude = de - EARTH_RADIUS;
        UserReadout {
            altitude: altitude as i64,
            is_moon_central: false,
            relative_speed: sqrt_floor(norm_sq(vel)) as i64,
            warp: warp_availability_spec(altitude as int, false),
        }
    }
}

/// Computes the craft's situation readout from the arena.
pub fn user_readout(pos: Vec3i, vel: Vec3i, bodies: &Vec<Body>) -> (r: UserReadout)
    requires
        pos.in_mag(POS_LIMIT as int),
        vel.in_mag(VEL_LIMIT as int),
        all_wf(bodies@),
    ensures
        r == user_readout_spec(pos, vel, bodies@),
{
    let nsq = norm_sq_i128(pos, POS_LIMIT);
    let de_u = isqrt(nsq as u128);
    proof {
        lemma_sqrt_floor_props(nsq as int);
        lemma_sqrt_floor_le(nsq as int, 3_500_000_000_000_000int);
    }
    let de = de_u as i64;
    let ghost s = bodies@;
    let mut best_d: i64 = i64::MAX;
    let mut best_v = Vec3i { x: 0, y: 0, z: 0 };
    let mut i: usize = 0;
    while i < bodies.len()
        invariant
            s == bodies@,
            all_wf(s),
            pos.in_mag(POS_LIMIT as int),
            0 <= i <= s.len(),
            best_v.in_mag(VEL_LIMIT as int),
            0 <= best_d,
            closest_non_user(s, pos, i as int, best_d, best_v) == closest_non_user(
                s,
                pos,
                0,
                i64::MAX,
                Vec3i { x: 0, y: 0, z: 0 },
            ),
        decreases s.len() - i,
    {
        let b = bodies[i];
        proof {
            assert(s[i as int].wf());
        }
        if !b.is_user {
            let dsq = dist_sq_i128(b.pos, pos, POS_LIMIT);
            let d_u = isqrt(dsq as u128);
            proof {
                lemma_sqrt_floor_props(dsq as int);
                lemma_sqrt_floor_le(dsq as int, 3_500_000_000_000_000int);
            }
            let d = d_u as i64;
            if d < best_d {
                best_d = d;
                best_v = b.phys.vel;
            }
        }
        i = i + 1;
    }
    if best_d < de {
        let rv = Vec3i { x: vel.x - best_v.x, y: vel.y - best_v.y, z: vel.z - best_v.z };
        let rsq = norm_sq_i128(rv, 20_000_000_000_000);
        let sp_u = isqrt(rsq as u128);
        proof {
            lemma_sqrt_floor_props(rsq as int);
            lemma_sqrt_floor_le(rsq as int, 70_000_000_000_000int);
        }
        let altitude = best_d - MOON_RADIUS;
        UserReadout {
            altitude,
            is_moon_central: true,
            relative_speed: sp_u as i64,
            warp: warp_availability(altitude, true),
        }
    } else {
        let vsq = norm_sq_i128(vel, VEL_LIMIT);
        let sp_u = isqrt(vsq as u128);
        proof {
            lemma_sqrt_floor_props(vsq as int);
            lemma_sqrt_floor_le(vsq as int, 35_000_000_000_000int);
        }
        let altitude = de - EARTH_RADIUS;
        UserReadout {
            altitude,
            is_moon_central: false,
            relative_speed: sp_u as i64,
            warp: warp_availability(altitude, false),
        }
    }
}

} // verus!
