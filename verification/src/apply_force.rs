//! Turns each body's accumulated force into a velocity change over the tick
//! and clears the accumulator.

use vstd::prelude::*;

use crate::config::Config;
use crate::constants::{DT_LIMIT, FORCE_LIMIT, MASS_LIMIT, VEL_LIMIT};
use crate::num::{clamp_mag, clamp_spec, div_trunc, lemma_tdiv_bound, tdiv};
use crate::physics_object::{all_wf, Body, PhysicsObject};
use crate::vec3::Vec3i;

verus! {

/// A body after its accumulated force has been applied: the velocity gains
/// `force * dt / (mass * 1e9)` per axis (micro-newtons and tonnes over
/// microseconds give micro-units/s), clamped, and the accumulator is
/// cleared.
pub open spec fn force_applied(b: Body, dt: int) -> Body {
    let m = b.phys.mass;
    Body {
        pos: b.pos,
        phys: PhysicsObject {
            vel: Vec3i {
                x: clamp_spec(
                    b.phys.vel.x + tdiv(b.phys.applied_force.x * dt, m * 1_000_000_000),
                    -(VEL_LIMIT as int),
                    VEL_LIMIT as int,
                ) as i64,
                y: clamp_spec(
                    b.phys.vel.y + tdiv(b.phys.applied_force.y * dt, m * 1_000_000_000),
                    -(VEL_LIMIT as int),
                    VEL_LIMIT as int,
                ) as i64,
                z: clamp_spec(
                    b.phys.vel.z + tdiv(b.phys.applied_force.z * dt, m * 1_000_000_000),
                    -(VEL_LIMIT as int),
                    VEL_LIMIT as int,
                ) as i64,
            },
            mass: b.phys.mass,
            radius: b.phys.radius,
            applied_force: Vec3i { x: 0, y: 0, z: 0 },
            central_body: b.phys.central_body,
        },
        is_user: b.is_user,
    }
}

/// The whole arena after force application.
pub open spec fn forces_applied(s: Seq<Body>, dt: int) -> Seq<Body> {
    Seq::new(s.len(), |k: int| force_applied(s[k], dt))
}

/// One velocity component gaining its share of the accumulated force.
fn force_comp(v: i64, f: i64, m: i64, dt: u64) -> (r: i64)
    requires
        -VEL_LIMIT <= v <= VEL_LIMIT,
        -FORCE_LIMIT <= f <= FORCE_LIMIT,
        0 < m <= MASS_LIMIT,
        1 <= dt <= DT_LIMIT,
    ensures
        r as int == clamp_spec(
            v + tdiv(f * dt, m * 1_000_000_000),
            -(VEL_LIMIT as int),
            VEL_LIMIT as int,
        ),
{
    let dt128 = dt as i128;
    proof {
        assert(-40_000_000_000_000_000_000_000_000int <= (f as int) * dt128
            <= 40_000_000_000_000_000_000_000_000int && (f as int) * dt128
            <= 40_000_000_000_000_000int * ((m as int) * 1_000_000_000) && -(
        40_000_000_000_000_000int * ((m as int) * 1_000_000_000)) <= (f as int) * dt128)
            by (nonlinear_arith)
            requires
                -FORCE_LIMIT <= f <= FORCE_LIMIT,
                FORCE_LIMIT == 10_000_000_000_000_000,
                1 <= dt128 <= 4_000_000_000,
                m >= 1,
        ;
        lemma_tdiv_bound(
            (f as int) * dt128,
            (m as int) * 1_000_000_000,
            40_000_000_000_000_000int,
        );
    }
    let q = div_trunc((f as i128) * dt128, (m as i128) * 1_000_000_000);
    clamp_mag((v as i128) + q, VEL_LIMIT)
}

/// Applies every body's accumulated force to its velocity and resets the
/// accumulator to zero.
pub fn apply_force_system(bodies: &mut Vec<Body>, config: &Config)
    requires
        all_wf(old(bodies)@),
        config.wf(),
    ensures
        final(bodies)@ == forces_applied(old(bodies)@, config.dt_micros as int),
        final(bodies)@.len() == old(bodies)@.len(),
        all_wf(final(bodies)@),
{
    let ghost s0 = bodies@;
    let dt = config.dt_micros;
    let n = bodies.len();
    let mut k: usize = 0;
    while k < n
        invariant
            all_wf(s0),
            s0.len() == n,
            bodies@.len() == n,
            0 <= k <= n,
            1 <= dt <= DT_LIMIT,
            forall|i: int| 0 <= i < k ==> bodies@[i] == force_applied(s0[i], dt as int),
            forall|i: int| k <= i < n ==> bodies@[i] == s0[i],
        decreases n - k,
    {
        let b = bodies[k];
        proof {
            assert(s0[k as int].wf());
        }
        let mut nb = b;
        nb.phys.vel = Vec3i {
            x: force_comp(b.phys.vel.x, b.phys.applied_force.x, b.phys.mass, dt),
            y: force_comp(b.phys.vel.y, b.phys.applied_force.y, b.phys.mass, dt),
            z: force_comp(b.phys.vel.z, b.phys.applied_force.z, b.phys.mass, dt),
        };
        nb.phys.applied_force = Vec3i { x: 0, y: 0, z: 0 };
        bodies[k] = nb;
        k = k + 1;
    }
    proof {
        assert(bodies@ =~= forces_applied(s0, dt as int));
        assert forall|i: int|
            0 <= i < bodies@.len() implies #[trigger] bodies@[i].wf() by {
            assert(s0[i].wf());
        }
    }
}

} // verus!
