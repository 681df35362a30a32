//! Gravity: pairwise softened attraction, net acceleration, central-body
//! resolution by dominant single-source contribution, and the velocity-Verlet
//! step that advances every body by one tick.
//!
//! The acceleration a source of mass `M` (tonnes) exerts on a target is, per
//! axis, `M * G_E12 * d_axis / m^3` micro-units/s², where `d` is the
//! source-to-target offset reduced to milli-units and
//! `m = sqrt_floor(|d|^2 + SOFTENING_MILLI_SQ)`; the softening term keeps the
//! formula finite at zero separation.

use vstd::prelude::*;

use crate::config::Config;
use crate::constants::{
    ACCEL_LIMIT, DT_LIMIT, G_E12, MASS_LIMIT, MAX_BODIES, MILLI, NET_ACCEL_LIMIT, POS_LIMIT,
    SOFTENING_MILLI_SQ, VEL_LIMIT,
};
use crate::num::{
    clamp_mag, clamp_spec, div_trunc, isqrt, lemma_sqrt_floor_ge, lemma_sqrt_floor_le,
    lemma_sqrt_floor_props, lemma_tdiv_bound, sqrt_floor, tdiv,
};
use crate::physics_object::{all_wf, centrals_ok, Body, PhysicsObject};
use crate::vec3::Vec3i;

verus! {

/// Acceleration exerted by a source at `src_pos` of mass `src_mass` on a
/// target at `tgt_pos`, per axis, in micro-units/s².
pub open spec fn accel_contrib(src_pos: Vec3i, src_mass: i64, tgt_pos: Vec3i) -> (int, int, int) {
    let dx = tdiv(src_pos.x - tgt_pos.x, MILLI as int);
    let dy = tdiv(src_pos.y - tgt_pos.y, MILLI as int);
    let dz = tdiv(src_pos.z - tgt_pos.z, MILLI as int);
    let m = sqrt_floor(dx * dx + dy * dy + dz * dz + SOFTENING_MILLI_SQ);
    let m3 = m * m * m;
    (
        tdiv(src_mass * G_E12 * dx, m3),
        tdiv(src_mass * G_E12 * dy, m3),
        tdiv(src_mass * G_E12 * dz, m3),
    )
}

/// Whether body `j` acts as a gravity source on body `i`: it must be another
/// body and not the non-gravitating craft.
pub open spec fn grav_source(s: Seq<Body>, i: int, j: int) -> bool {
    0 <= j < s.len() && j != i && !s[j].is_user
}

/// Contribution of body `j` on body `i`; zero where `j` is no source.
pub open spec fn contrib_at(s: Seq<Body>, i: int, j: int) -> (int, int, int) {
    if grav_source(s, i, j) && 0 <= i < s.len() {
        accel_contrib(s[j].pos, s[j].phys.mass, s[i].pos)
    } else {
        (0, 0, 0)
    }
}

/// Squared magnitude of an acceleration triple.
pub open spec fn tri_norm_sq(t: (int, int, int)) -> int {
    t.0 * t.0 + t.1 * t.1 + t.2 * t.2
}

/// Net acceleration on body `i` from sources with index below `k`.
pub open spec fn net_accel_upto(s: Seq<Body>, i: int, k: int) -> (int, int, int)
    decreases k,
{
    if k <= 0 {
        (0, 0, 0)
    } else {
        let prev = net_accel_upto(s, i, k - 1);
        let c = contrib_at(s, i, k - 1);
        (prev.0 + c.0, prev.1 + c.1, prev.2 + c.2)
    }
}

/// Net acceleration on body `i` from all sources.
pub open spec fn net_accel(s: Seq<Body>, i: int) -> (int, int, int) {
    net_accel_upto(s, i, s.len() as int)
}

/// Running central-body selection over sources with index below `k`: the
/// squared magnitude of the strongest contribution seen, and the first index
/// that attained it; `None` while every contribution is zero.
pub open spec fn central_upto(s: Seq<Body>, i: int, k: int) -> (int, Option<usize>)
    decreases k,
{
    if k <= 0 {
        (0, None)
    } else {
        let prev = central_upto(s, i, k - 1);
        let c = tri_norm_sq(contrib_at(s, i, k - 1));
        if c > prev.0 {
            (c, Some((k - 1) as usize))
        } else {
            prev
        }
    }
}

/// The resolved central body of body `i`: the gravitating body whose single
/// contribution dominates, or `None` when none contributes.
pub open spec fn central_of(s: Seq<Body>, i: int) -> Option<usize> {
    central_upto(s, i, s.len() as int).1
}

/// Sum-of-squares facts for an acceleration triple with bounded components.
pub proof fn lemma_tri_bounds(t: (int, int, int), lim: int)
    by (nonlinear_arith)
    requires
        0 <= lim,
        -lim <= t.0 <= lim,
        -lim <= t.1 <= lim,
        -lim <= t.2 <= lim,
    ensures
        0 <= tri_norm_sq(t) <= 3 * lim * lim,
        0 <= t.0 * t.0 <= lim * lim,
        0 <= t.1 * t.1 <= lim * lim,
        0 <= t.2 * t.2 <= lim * lim,
{
}

/// Every component of a source's contribution on a target is within
/// `ACCEL_LIMIT`: the softening floor bounds `mass * G / m^2`.
pub proof fn lemma_contrib_bound(src_pos: Vec3i, src_mass: i64, tgt_pos: Vec3i)
    requires
        src_pos.in_mag(POS_LIMIT as int),
        tgt_pos.in_mag(POS_LIMIT as int),
        0 < src_mass <= MASS_LIMIT,
    ensures
        ({
            let a = accel_contrib(src_pos, src_mass, tgt_pos);
            &&& -(ACCEL_LIMIT as int) <= a.0 <= ACCEL_LIMIT as int
            &&& -(ACCEL_LIMIT as int) <= a.1 <= ACCEL_LIMIT as int
            &&& -(ACCEL_LIMIT as int) <= a.2 <= ACCEL_LIMIT as int
        }),
{
    let dx = tdiv(src_pos.x - tgt_pos.x, MILLI as int);
    let dy = tdiv(src_pos.y - tgt_pos.y, MILLI as int);
    let dz = tdiv(src_pos.z - tgt_pos.z, MILLI as int);
    lemma_tdiv_bound(src_pos.x - tgt_pos.x, MILLI as int, 2_000_000_000_000int);
    lemma_tdiv_bound(src_pos.y - tgt_pos.y, MILLI as int, 2_000_000_000_000int);
    lemma_tdiv_bound(src_pos.z - tgt_pos.z, MILLI as int, 2_000_000_000_000int);
    let msq = dx * dx + dy * dy + dz * dz + SOFTENING_MILLI_SQ;
    assert(SOFTENING_MILLI_SQ <= msq <= 12_000_000_000_000_156_250_000_000int) by (nonlinear_arith)
        requires
            -2_000_000_000_000int <= dx <= 2_000_000_000_000int,
            -2_000_000_000_000int <= dy <= 2_000_000_000_000int,
            -2_000_000_000_000int <= dz <= 2_000_000_000_000int,
            msq == dx * dx + dy * dy + dz * dz + SOFTENING_MILLI_SQ,
            SOFTENING_MILLI_SQ == 156_250_000,
    ;
    let m = sqrt_floor(msq);
    lemma_sqrt_floor_props(msq);
    lemma_sqrt_floor_ge(msq, 12_500);
    let m3 = m * m * m;
    assert(-m <= dx <= m && -m <= dy <= m && -m <= dz <= m) by (nonlinear_arith)
        requires
            dx * dx + dy * dy + dz * dz + 156_250_000 == msq,
            SOFTENING_MILLI_SQ == 156_250_000,
            msq < (m + 1) * (m + 1),
            m >= 12_500,
    ;
    assert(m3 >= 1 && (src_mass as int) * (G_E12 as int) * dx <= (ACCEL_LIMIT as int) * m3 && -((
    ACCEL_LIMIT as int) * m3) <= (src_mass as int) * (G_E12 as int) * dx) by (nonlinear_arith)
        requires
            m3 == m * m * m,
            m >= 12_500,
            -m <= dx <= m,
            0 < src_mass <= MASS_LIMIT,
            MASS_LIMIT == 1_000_000_000_000_000_000,
            G_E12 == 66_743,
            ACCEL_LIMIT == 428_000_000_000_000,
    ;
    assert(m3 >= 1 && (src_mass as int) * (G_E12 as int) * dy <= (ACCEL_LIMIT as int) * m3 && -((
    ACCEL_LIMIT as int) * m3) <= (src_mass as int) * (G_E12 as int) * dy) by (nonlinear_arith)
        requires
            m3 == m * m * m,
            m >= 12_500,
            -m <= dy <= m,
            0 < src_mass <= MASS_LIMIT,
            MASS_LIMIT == 1_000_000_000_000_000_000,
            G_E12 == 66_743,
            ACCEL_LIMIT == 428_000_000_000_000,
    ;
    assert(m3 >= 1 && (src_mass as int) * (G_E12 as int) * dz <= (ACCEL_LIMIT as int) * m3 && -((
    ACCEL_LIMIT as int) * m3) <= (src_mass as int) * (G_E12 as int) * dz) by (nonlinear_arith)
        requires
            m3 == m * m * m,
            m >= 12_500,
            -m <= dz <= m,
            0 < src_mass <= MASS_LIMIT,
            MASS_LIMIT == 1_000_000_000_000_000_000,
            G_E12 == 66_743,
            ACCEL_LIMIT == 428_000_000_000_000,
    ;
    lemma_tdiv_bound((src_mass as int) * (G_E12 as int) * dx, m3, ACCEL_LIMIT as int);
    lemma_tdiv_bound((src_mass as int) * (G_E12 as int) * dy, m3, ACCEL_LIMIT as int);
    lemma_tdiv_bound((src_mass as int) * (G_E12 as int) * dz, m3, ACCEL_LIMIT as int);
}

/// Computes one source's contribution on a target.
pub(crate) fn contrib_exec(src_pos: Vec3i, src_mass: i64, tgt_pos: Vec3i) -> (r: Vec3i)
    requires
        src_pos.in_mag(POS_LIMIT as int),
        tgt_pos.in_mag(POS_LIMIT as int),
        0 < src_mass <= MASS_LIMIT,
    ensures
        ({
            let a = accel_contrib(src_pos, src_mass, tgt_pos);
            r.x == a.0 && r.y == a.1 && r.z == a.2
        }),
        r.in_mag(ACCEL_LIMIT as int),
{
    proof {
        lemma_contrib_bound(src_pos, src_mass, tgt_pos);
        lemma_tdiv_bound(src_pos.x - tgt_pos.x, MILLI as int, 2_000_000_000_000int);
        lemma_tdiv_bound(src_pos.y - tgt_pos.y, MILLI as int, 2_000_000_000_000int);
        lemma_tdiv_bound(src_pos.z - tgt_pos.z, MILLI as int, 2_000_000_000_000int);
    }
    let dx = div_trunc(src_pos.x as i128 - tgt_pos.x as i128, 1000);
    let dy = div_trunc(src_pos.y as i128 - tgt_pos.y as i128, 1000);
    let dz = div_trunc(src_pos.z as i128 - tgt_pos.z as i128, 1000);
    proof {
        assert(0 <= dx * dx <= 4_000_000_000_000_000_000_000_000int && 0 <= dy * dy
            <= 4_000_000_000_000_000_000_000_000int && 0 <= dz * dz
            <= 4_000_000_000_000_000_000_000_000int) by (nonlinear_arith)
            requires
                -2_000_000_000_000 <= dx <= 2_000_000_000_000,
                -2_000_000_000_000 <= dy <= 2_000_000_000_000,
                -2_000_000_000_000 <= dz <= 2_000_000_000_000,
        ;
    }
    let msq: i128 = dx * dx + dy * dy + dz * dz + SOFTENING_MILLI_SQ as i128;
    let m_u = isqrt(msq as u128);
    proof {
        lemma_sqrt_floor_le(msq as int, 3_470_000_000_000int);
        lemma_sqrt_floor_ge(msq as int, 12_500);
    }
    let m: i128 = m_u as i128;
    proof {
        assert(m * m * m <= 41_781_923_000_000_000_000_000_000_000_000_000_000int && m * m * m
            >= 1 && m * m <= 12_040_900_000_000_000_000_000_000int) by (nonlinear_arith)
            requires
                12_500 <= m <= 3_470_000_000_000i128,
        ;
    }
    let m3: i128 = m * m * m;
    let gm: i128 = (src_mass as i128) * (G_E12 as i128);
    proof {
        assert(gm <= 67_000_000_000_000_000_000_000i128);
        assert(-134_000_000_000_000_000_000_000_000_000_000_000int <= gm * dx
            <= 134_000_000_000_000_000_000_000_000_000_000_000int
            && -134_000_000_000_000_000_000_000_000_000_000_000int <= gm * dy
            <= 134_000_000_000_000_000_000_000_000_000_000_000int
            && -134_000_000_000_000_000_000_000_000_000_000_000int <= gm * dz
            <= 134_000_000_000_000_000_000_000_000_000_000_000int) by (nonlinear_arith)
            requires
                0 < gm <= 67_000_000_000_000_000_000_000i128,
                -2_000_000_000_000 <= dx <= 2_000_000_000_000,
                -2_000_000_000_000 <= dy <= 2_000_000_000_000,
                -2_000_000_000_000 <= dz <= 2_000_000_000_000,
        ;
    }
    let ax = div_trunc(gm * dx, m3);
    let ay = div_trunc(gm * dy, m3);
    let az = div_trunc(gm * dz, m3);
    Vec3i { x: ax as i64, y: ay as i64, z: az as i64 }
}

/// A sum of squares is never negative.
pub proof fn lemma_tri_nonneg(t: (int, int, int))
    by (nonlinear_arith)
    ensures
        tri_norm_sq(t) >= 0,
        t == (0int, 0int, 0int) ==> tri_norm_sq(t) == 0,
{
}

/// The running central-body selection keeps the largest squared contribution
/// seen so far, held by the first index that attained it; it stays `None`
/// exactly while every contribution is zero.
pub proof fn lemma_central_props(s: Seq<Body>, i: int, k: int)
    requires
        0 <= k <= s.len(),
        s.len() <= usize::MAX,
    ensures
        ({
            let c = central_upto(s, i, k);
            &&& c.0 >= 0
            &&& forall|j: int|
                0 <= j < k ==> tri_norm_sq(#[trigger] contrib_at(s, i, j)) <= c.0
            &&& match c.1 {
                Some(b) => {
                    &&& 0 <= b < k
                    &&& grav_source(s, i, b as int)
                    &&& tri_norm_sq(contrib_at(s, i, b as int)) == c.0
                    &&& c.0 > 0
                },
                None => c.0 == 0,
            }
        }),
    decreases k,
{
    if k > 0 {
        lemma_central_props(s, i, k - 1);
        let t = contrib_at(s, i, k - 1);
        lemma_tri_nonneg(t);
        let prev = central_upto(s, i, k - 1);
        if tri_norm_sq(t) > prev.0 {
            assert(grav_source(s, i, k - 1));
        }
    }
}

/// Law: the body selected as a body's central body exerts the largest
/// single-source gravitational acceleration among all gravitating bodies and
/// is never the body itself; no body is selected exactly when every
/// contribution vanishes.
pub proof fn lemma_central_body_dominant(s: Seq<Body>, i: int)
    requires
        0 <= i < s.len(),
        s.len() <= usize::MAX,
    ensures
        match central_of(s, i) {
            Some(c) => {
                &&& (c as int) < s.len()
                &&& c != i
                &&& !s[c as int].is_user
                &&& forall|j: int|
                    0 <= j < s.len() ==> tri_norm_sq(#[trigger] contrib_at(s, i, j))
                        <= tri_norm_sq(contrib_at(s, i, c as int))
            },
            None => forall|j: int|
                0 <= j < s.len() ==> tri_norm_sq(#[trigger] contrib_at(s, i, j)) == 0,
        },
{
    lemma_central_props(s, i, s.len() as int);
    if central_of(s, i) is None {
        assert forall|j: int| 0 <= j < s.len() implies tri_norm_sq(
            #[trigger] contrib_at(s, i, j),
        ) == 0 by {
            lemma_tri_nonneg(contrib_at(s, i, j));
        }
    }
}

/// Net gravitational acceleration on one body from every gravitating other
/// body, by a scan over the whole arena.
pub fn calculate_gravity_accel(bodies: &Vec<Body>, target_index: usize) -> (r: Vec3i)
    requires
        all_wf(bodies@),
        bodies@.len() <= MAX_BODIES,
        target_index < bodies@.len(),
    ensures
        ({
            let a = net_accel(bodies@, target_index as int);
            r.x == a.0 && r.y == a.1 && r.z == a.2
        }),
        r.in_mag(NET_ACCEL_LIMIT as int),
{
    let target_pos = bodies[target_index].pos;
    let mut ax: i64 = 0;
    let mut ay: i64 = 0;
    let mut az: i64 = 0;
    let mut j: usize = 0;
    while j < bodies.len()
        invariant
            all_wf(bodies@),
            bodies@.len() <= MAX_BODIES,
            target_index < bodies@.len(),
            target_pos == bodies@[target_index as int].pos,
            0 <= j <= bodies@.len(),
            ({
                let a = net_accel_upto(bodies@, target_index as int, j as int);
                ax == a.0 && ay == a.1 && az == a.2
            }),
            -((j as int) * ACCEL_LIMIT) <= ax <= (j as int) * ACCEL_LIMIT,
            -((j as int) * ACCEL_LIMIT) <= ay <= (j as int) * ACCEL_LIMIT,
            -((j as int) * ACCEL_LIMIT) <= az <= (j as int) * ACCEL_LIMIT,
        decreases bodies@.len() - j,
    {
        let b = bodies[j];
        if j != target_index && !b.is_user {
            proof {
                assert(bodies@[j as int].wf());
                assert(bodies@[target_index as int].wf());
            }
            let c = contrib_exec(b.pos, b.phys.mass, target_pos);
            ax = ax + c.x;
            ay = ay + c.y;
            az = az + c.z;
        } else {
            proof {
                assert(contrib_at(bodies@, target_index as int, j as int) == (0int, 0int, 0int));
            }
        }
        j = j + 1;
    }
    Vec3i { x: ax, y: ay, z: az }
}

/// Net gravitational acceleration on one body, resolving at the same time
/// which single source contributed the largest acceleration: that source is
/// the body's central body, or `None` when every contribution is zero.
pub fn calculate_gravity_accel_with_central_body(bodies: &Vec<Body>, target_index: usize) -> (r: (
    Vec3i,
    Option<usize>,
))
    requires
        all_wf(bodies@),
        bodies@.len() <= MAX_BODIES,
        target_index < bodies@.len(),
    ensures
        ({
            let a = net_accel(bodies@, target_index as int);
            r.0.x == a.0 && r.0.y == a.1 && r.0.z == a.2
        }),
        r.0.in_mag(NET_ACCEL_LIMIT as int),
        r.1 == central_of(bodies@, target_index as int),
        match r.1 {
            Some(c) => {
                &&& (c as int) < bodies@.len()
                &&& c != target_index
                &&& !bodies@[c as int].is_user
                &&& forall|j: int|
                    0 <= j < bodies@.len() ==> tri_norm_sq(
                        #[trigger] contrib_at(bodies@, target_index as int, j),
                    ) <= tri_norm_sq(contrib_at(bodies@, target_index as int, c as int))
            },
            None => forall|j: int|
                0 <= j < bodies@.len() ==> tri_norm_sq(
                    #[trigger] contrib_at(bodies@, target_index as int, j),
                ) == 0,
        },
{
    let target_pos = bodies[target_index].pos;
    let mut ax: i64 = 0;
    let mut ay: i64 = 0;
    let mut az: i64 = 0;
    let mut max_accel: i128 = 0;
    let mut central_body: Option<usize> = None;
    let mut j: usize = 0;
    while j < bodies.len()
        invariant
            all_wf(bodies@),
            bodies@.len() <= MAX_BODIES,
            target_index < bodies@.len(),
            target_pos == bodies@[target_index as int].pos,
            0 <= j <= bodies@.len(),
            ({
                let a = net_accel_upto(bodies@, target_index as int, j as int);
                ax == a.0 && ay == a.1 && az == a.2
            }),
            -((j as int) * ACCEL_LIMIT) <= ax <= (j as int) * ACCEL_LIMIT,
            -((j as int) * ACCEL_LIMIT) <= ay <= (j as int) * ACCEL_LIMIT,
            -((j as int) * ACCEL_LIMIT) <= az <= (j as int) * ACCEL_LIMIT,
            ({
                let c = central_upto(bodies@, target_index as int, j as int);
                max_accel == c.0 && central_body == c.1
            }),
            0 <= max_accel,
        decreases bodies@.len() - j,
    {
        let b = bodies[j];
        if j != target_index && !b.is_user {
            proof {
                assert(bodies@[j as int].wf());
                assert(bodies@[target_index as int].wf());
            }
            let c = contrib_exec(b.pos, b.phys.mass, target_pos);
            proof {
                lemma_tri_bounds((c.x as int, c.y as int, c.z as int), ACCEL_LIMIT as int);
            }
            let csq: i128 = (c.x as i128) * (c.x as i128) + (c.y as i128) * (c.y as i128) + (
            c.z as i128) * (c.z as i128);
            if csq > max_accel {
                max_accel = csq;
                central_body = Some(j);
            }
            ax = ax + c.x;
            ay = ay + c.y;
            az = az + c.z;
        } else {
            proof {
                assert(contrib_at(bodies@, target_index as int, j as int) == (0int, 0int, 0int));
                lemma_tri_nonneg((0int, 0int, 0int));
            }
        }
        j = j + 1;
    }
    proof {
        lemma_central_body_dominant(bodies@, target_index as int);
    }
    (Vec3i { x: ax, y: ay, z: az }, central_body)
}

/// Position after the first Verlet half-step:
/// `pos + vel*dt + a*dt^2/2` in fixed point, clamped to the world bounds.
pub open spec fn pos_updated(s: Seq<Body>, k: int, dt: int) -> Vec3i {
    let a = net_accel(s, k);
    let b = s[k];
    Vec3i {
        x: clamp_spec(
            b.pos.x + tdiv(b.phys.vel.x * dt, 1_000_000) + tdiv(a.0 * dt * dt, 2_000_000_000_000),
            -(POS_LIMIT as int),
            POS_LIMIT as int,
        ) as i64,
        y: clamp_spec(
            b.pos.y + tdiv(b.phys.vel.y * dt, 1_000_000) + tdiv(a.1 * dt * dt, 2_000_000_000_000),
            -(POS_LIMIT as int),
            POS_LIMIT as int,
        ) as i64,
        z: clamp_spec(
            b.pos.z + tdiv(b.phys.vel.z * dt, 1_000_000) + tdiv(a.2 * dt * dt, 2_000_000_000_000),
            -(POS_LIMIT as int),
            POS_LIMIT as int,
        ) as i64,
    }
}

/// The world after the integrator's first pass: every position advanced
/// from the pre-step snapshot, every central body reassigned, velocities
/// untouched.
pub open spec fn step_positions(s: Seq<Body>, dt: int) -> Seq<Body> {
    Seq::new(
        s.len(),
        |k: int|
            Body {
                pos: pos_updated(s, k, dt),
                phys: PhysicsObject {
                    vel: s[k].phys.vel,
                    mass: s[k].phys.mass,
                    radius: s[k].phys.radius,
                    applied_force: s[k].phys.applied_force,
                    central_body: central_of(s, k),
                },
                is_user: s[k].is_user,
            },
    )
}

/// Velocity after the full Verlet step: the mean of the accelerations at
/// the old and at the advanced positions, applied over `dt`, clamped.
pub open spec fn vel_updated(s0: Seq<Body>, s1: Seq<Body>, k: int, dt: int) -> Vec3i {
    let a0 = net_accel(s0, k);
    let a1 = net_accel(s1, k);
    let v = s0[k].phys.vel;
    Vec3i {
        x: clamp_spec(
            v.x + tdiv((a0.0 + a1.0) * dt, 2_000_000),
            -(VEL_LIMIT as int),
            VEL_LIMIT as int,
        ) as i64,
        y: clamp_spec(
            v.y + tdiv((a0.1 + a1.1) * dt, 2_000_000),
            -(VEL_LIMIT as int),
            VEL_LIMIT as int,
        ) as i64,
        z: clamp_spec(
            v.z + tdiv((a0.2 + a1.2) * dt, 2_000_000),
            -(VEL_LIMIT as int),
            VEL_LIMIT as int,
        ) as i64,
    }
}

/// The world after one full integrator tick of timestep `dt` microseconds.
pub open spec fn gravity_step(s: Seq<Body>, dt: int) -> Seq<Body> {
    let s1 = step_positions(s, dt);
    Seq::new(
        s.len(),
        |k: int|
            Body {
                pos: s1[k].pos,
                phys: PhysicsObject {
                    vel: vel_updated(s, s1, k, dt),
                    mass: s[k].phys.mass,
                    radius: s[k].phys.radius,
                    applied_force: s[k].phys.applied_force,
                    central_body: central_of(s, k),
                },
                is_user: s[k].is_user,
            },
    )
}

/// One position component of the first Verlet half-step.
fn pos_comp(p: i64, v: i64, a: i64, dt: u64) -> (r: i64)
    requires
        -POS_LIMIT <= p <= POS_LIMIT,
        -VEL_LIMIT <= v <= VEL_LIMIT,
        -NET_ACCEL_LIMIT <= a <= NET_ACCEL_LIMIT,
        1 <= dt <= DT_LIMIT,
    ensures
        r as int == clamp_spec(
            p + tdiv(v * dt, 1_000_000) + tdiv(a * dt * dt, 2_000_000_000_000),
            -(POS_LIMIT as int),
            POS_LIMIT as int,
        ),
{
    let dt128 = dt as i128;
    proof {
        assert(-40_000_000_000_000_000_000_000int <= (v as int) * dt128
            <= 40_000_000_000_000_000_000_000int) by (nonlinear_arith)
            requires
                -VEL_LIMIT <= v <= VEL_LIMIT,
                VEL_LIMIT == 10_000_000_000_000,
                1 <= dt128 <= 4_000_000_000,
        ;
        assert(-8_000_000_000_000_000_000_000_000_000int <= (a as int) * dt128
            <= 8_000_000_000_000_000_000_000_000_000int) by (nonlinear_arith)
            requires
                -NET_ACCEL_LIMIT <= a <= NET_ACCEL_LIMIT,
                NET_ACCEL_LIMIT == 1_753_088_000_000_000_000,
                1 <= dt128 <= 4_000_000_000,
        ;
        assert(-32_000_000_000_000_000_000_000_000_000_000_000_000int <= ((a as int) * dt128)
            * dt128 <= 32_000_000_000_000_000_000_000_000_000_000_000_000int) by (nonlinear_arith)
            requires
                -8_000_000_000_000_000_000_000_000_000int <= (a as int) * dt128
                    <= 8_000_000_000_000_000_000_000_000_000int,
                1 <= dt128 <= 4_000_000_000,
        ;
        crate::num::lemma_tdiv_bound(
            (v as int) * dt128,
            1_000_000int,
            40_000_000_000_000_000int,
        );
        crate::num::lemma_tdiv_bound(
            (a as int) * dt128 * dt128,
            2_000_000_000_000int,
            16_000_000_000_000_000_000_000_000int,
        );
    }
    let q1 = div_trunc((v as i128) * dt128, 1_000_000);
    let q2 = div_trunc((a as i128) * dt128 * dt128, 2_000_000_000_000);
    clamp_mag((p as i128) + q1 + q2, POS_LIMIT)
}

/// One velocity component of the full Verlet step.
fn vel_comp(v: i64, a0: i64, a1: i64, dt: u64) -> (r: i64)
    requires
        -VEL_LIMIT <= v <= VEL_LIMIT,
        -NET_ACCEL_LIMIT <= a0 <= NET_ACCEL_LIMIT,
        -NET_ACCEL_LIMIT <= a1 <= NET_ACCEL_LIMIT,
        1 <= dt <= DT_LIMIT,
    ensures
        r as int == clamp_spec(
            v + tdiv((a0 + a1) * dt, 2_000_000),
            -(VEL_LIMIT as int),
            VEL_LIMIT as int,
        ),
{
    let dt128 = dt as i128;
    let sum: i128 = (a0 as i128) + (a1 as i128);
    proof {
        assert(-16_000_000_000_000_000_000_000_000_000int <= sum * dt128
            <= 16_000_000_000_000_000_000_000_000_000int) by (nonlinear_arith)
            requires
                -4_000_000_000_000_000_000i128 <= sum <= 4_000_000_000_000_000_000i128,
                1 <= dt128 <= 4_000_000_000,
        ;
        crate::num::lemma_tdiv_bound(
            sum * dt128,
            2_000_000int,
            8_000_000_000_000_000_000_000_000int,
        );
    }
    let q = div_trunc(sum * dt128, 2_000_000);
    clamp_mag((v as i128) + q, VEL_LIMIT)
}

/// One tick of the gravitational integrator: a velocity-Verlet step over
/// the whole arena. Accelerations and central bodies are computed from a
/// full pre-step snapshot, then every position is advanced and every
/// central-body link reassigned, then accelerations are recomputed at the
/// new positions and every velocity is advanced by the mean acceleration.
pub fn gravity_system(bodies: &mut Vec<Body>, config: &Config)
    requires
        all_wf(old(bodies)@),
        old(bodies)@.len() <= MAX_BODIES,
        config.wf(),
    ensures
        final(bodies)@ == gravity_step(old(bodies)@, config.dt_micros as int),
        final(bodies)@.len() == old(bodies)@.len(),
        all_wf(final(bodies)@),
        centrals_ok(final(bodies)@),
        forall|k: int|
            0 <= k < old(bodies)@.len() ==> (#[trigger] final(bodies)@[k]).phys.central_body
                == central_of(old(bodies)@, k),
{
    let ghost s0 = bodies@;
    let dt = config.dt_micros;
    let n = bodies.len();

    let mut accel1: Vec<Vec3i> = Vec::new();
    let mut centrals: Vec<Option<usize>> = Vec::new();
    let mut k: usize = 0;
    while k < n
        invariant
            bodies@ == s0,
            all_wf(s0),
            s0.len() == n,
            n <= MAX_BODIES,
            0 <= k <= n,
            accel1@.len() == k,
            centrals@.len() == k,
            forall|i: int|
                0 <= i < k ==> {
                    let a = net_accel(s0, i);
                    &&& (#[trigger] accel1@[i]).x == a.0
                    &&& accel1@[i].y == a.1
                    &&& accel1@[i].z == a.2
                    &&& accel1@[i].in_mag(NET_ACCEL_LIMIT as int)
                },
            forall|i: int| 0 <= i < k ==> #[trigger] centrals@[i] == central_of(s0, i),
        decreases n - k,
    {
        let r = calculate_gravity_accel_with_central_body(bodies, k);
        accel1.push(r.0);
        centrals.push(r.1);
        k = k + 1;
    }

    let ghost s1 = step_positions(s0, dt as int);
    let mut k: usize = 0;
    while k < n
        invariant
            all_wf(s0),
            s0.len() == n,
            n <= MAX_BODIES,
            bodies@.len() == n,
            0 <= k <= n,
            1 <= dt <= DT_LIMIT,
            accel1@.len() == n,
            centrals@.len() == n,
            forall|i: int|
                0 <= i < n ==> {
                    let a = net_accel(s0, i);
                    &&& (#[trigger] accel1@[i]).x == a.0
                    &&& accel1@[i].y == a.1
                    &&& accel1@[i].z == a.2
                    &&& accel1@[i].in_mag(NET_ACCEL_LIMIT as int)
                },
            forall|i: int| 0 <= i < n ==> #[trigger] centrals@[i] == central_of(s0, i),
            s1 == step_positions(s0, dt as int),
            forall|i: int| 0 <= i < k ==> bodies@[i] == s1[i],
            forall|i: int| k <= i < n ==> bodies@[i] == s0[i],
        decreases n - k,
    {
        let b = bodies[k];
        let a = accel1[k];
        proof {
            assert(s0[k as int].wf());
        }
        let px = pos_comp(b.pos.x, b.phys.vel.x, a.x, dt);
        let py = pos_comp(b.pos.y, b.phys.vel.y, a.y, dt);
        let pz = pos_comp(b.pos.z, b.phys.vel.z, a.z, dt);
        let mut nb = b;
        nb.pos = Vec3i { x: px, y: py, z: pz };
        nb.phys.central_body = centrals[k];
        bodies[k] = nb;
        proof {
            assert(bodies@[k as int] == s1[k as int]);
        }
        k = k + 1;
    }
    proof {
        assert(bodies@ =~= s1);
        assert forall|i: int| 0 <= i < s1.len() implies #[trigger] s1[i].wf() by {
            assert(s0[i].wf());
        }
    }

    let mut accel2: Vec<Vec3i> = Vec::new();
    let mut k: usize = 0;
    while k < n
        invariant
            bodies@ == s1,
            all_wf(s1),
            s1.len() == n,
            n <= MAX_BODIES,
            0 <= k <= n,
            accel2@.len() == k,
            forall|i: int|
                0 <= i < k ==> {
                    let a = net_accel(s1, i);
                    &&& (#[trigger] accel2@[i]).x == a.0
                    &&& accel2@[i].y == a.1
                    &&& accel2@[i].z == a.2
                    &&& accel2@[i].in_mag(NET_ACCEL_LIMIT as int)
                },
        decreases n - k,
    {
        let a = calculate_gravity_accel(bodies, k);
        accel2.push(a);
        k = k + 1;
    }

    let ghost s2 = gravity_step(s0, dt as int);
    let mut k: usize = 0;
    while k < n
        invariant
            all_wf(s0),
            all_wf(s1),
            s0.len() == n,
            s1.len() == n,
            n <= MAX_BODIES,
            bodies@.len() == n,
            0 <= k <= n,
            1 <= dt <= DT_LIMIT,
            accel1@.len() == n,
            accel2@.len() == n,
            forall|i: int|
                0 <= i < n ==> {
                    let a = net_accel(s0, i);
                    &&& (#[trigger] accel1@[i]).x == a.0
                    &&& accel1@[i].y == a.1
                    &&& accel1@[i].z == a.2
                    &&& accel1@[i].in_mag(NET_ACCEL_LIMIT as int)
                },
            forall|i: int|
                0 <= i < n ==> {
                    let a = net_accel(s1, i);
                    &&& (#[trigger] accel2@[i]).x == a.0
                    &&& accel2@[i].y == a.1
                    &&& accel2@[i].z == a.2
                    &&& accel2@[i].in_mag(NET_ACCEL_LIMIT as int)
                },
            s1 == step_positions(s0, dt as int),
            s2 == gravity_step(s0, dt as int),
            forall|i: int| 0 <= i < k ==> bodies@[i] == s2[i],
            forall|i: int| k <= i < n ==> bodies@[i] == s1[i],
        decreases n - k,
    {
        let b = bodies[k];
        let a0 = accel1[k];
        let a1 = accel2[k];
        proof {
            assert(s0[k as int].wf());
        }
        let vx = vel_comp(b.phys.vel.x, a0.x, a1.x, dt);
        let vy = vel_comp(b.phys.vel.y, a0.y, a1.y, dt);
        let vz = vel_comp(b.phys.vel.z, a0.z, a1.z, dt);
        let mut nb = b;
        nb.phys.vel = Vec3i { x: vx, y: vy, z: vz };
        bodies[k] = nb;
        proof {
            assert(bodies@[k as int] == s2[k as int]);
        }
        k = k + 1;
    }
    proof {
        assert(bodies@ =~= s2);
        assert forall|i: int| 0 <= i < s2.len() implies #[trigger] s2[i].wf() by {
            assert(s0[i].wf());
        }
        assert forall|i: int|
            0 <= i < s2.len() implies match #[trigger] s2[i].phys.central_body {
            Some(c) => c < s2.len() && c != i,
            None => true,
        } by {
            lemma_central_body_dominant(s0, i);
        }
    }
}

} // verus!
