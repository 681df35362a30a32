//! Collision detection and response: a swept-sphere overlap test between
//! every pair of bodies after integration, positional separation that
//! restores at least the touching distance, and a near-inelastic impulse
//! applied when the bodies approach each other.

use vstd::prelude::*;

use crate::config::Config;
use crate::constants::{
    DT_LIMIT, MAX_BODIES, POS_LIMIT, RADIUS_LIMIT, RESTITUTION_DEN, RESTITUTION_NUM, VEL_LIMIT,
};
use crate::num::{
    clamp_mag, clamp_spec, daway, div_away, div_trunc, isqrt, lemma_daway_mag,
    lemma_sqrt_floor_le, lemma_sqrt_floor_props, lemma_tdiv_bound, sqrt_floor, tdiv,
};
use crate::physics_object::{all_wf, Body, PhysicsObject};
use crate::vec3::{dist_sq, dist_sq_i128, dot, dot_i128, norm_sq, norm_sq_i128, Vec3i};

verus! {

/// Bound on a backward-extrapolated position component: a position plus the
/// largest per-step displacement.
pub const PREV_LIMIT: i64 = 50_000_000_000_000_000;

/// Relative motion slower than this (squared, micro-units^2) counts as no
/// motion for the closest-approach test.
pub const MIN_RELATIVE_MOTION_SQ: i64 = 1_000_000;

/// A body's position one step back, by linear backward extrapolation.
pub open spec fn prev_pos_of(b: Body, dt: int) -> Vec3i {
    Vec3i {
        x: (b.pos.x - tdiv(b.phys.vel.x * dt, 1_000_000)) as i64,
        y: (b.pos.y - tdiv(b.phys.vel.y * dt, 1_000_000)) as i64,
        z: (b.pos.z - tdiv(b.phys.vel.z * dt, 1_000_000)) as i64,
    }
}

/// Continuous (swept-sphere) overlap between two moving points of combined
/// radius `min_d` over one step: overlap now, overlap one step ago, or
/// overlap at the closest approach within the step. The closest-approach
/// time is the minimiser of the relative squared distance, clamped to the
/// step and quantised to thousandths.
pub open spec fn swept_collision_points(
    prev_a: Vec3i,
    pos_a: Vec3i,
    prev_b: Vec3i,
    pos_b: Vec3i,
    min_d: int,
) -> bool {
    if dist_sq(pos_a, pos_b) <= min_d * min_d {
        true
    } else if dist_sq(prev_a, prev_b) <= min_d * min_d {
        true
    } else {
        let rel_prev = Vec3i {
            x: (prev_a.x - prev_b.x) as i64,
            y: (prev_a.y - prev_b.y) as i64,
            z: (prev_a.z - prev_b.z) as i64,
        };
        let mv = Vec3i {
            x: ((pos_a.x - prev_a.x) - (pos_b.x - prev_b.x)) as i64,
            y: ((pos_a.y - prev_a.y) - (pos_b.y - prev_b.y)) as i64,
            z: ((pos_a.z - prev_a.z) - (pos_b.z - prev_b.z)) as i64,
        };
        if norm_sq(mv) < MIN_RELATIVE_MOTION_SQ {
            false
        } else {
            let tn = clamp_spec(-dot(rel_prev, mv), 0, norm_sq(mv));
            let t3 = tdiv(tn * 1000, norm_sq(mv));
            let cl = Vec3i {
                x: (rel_prev.x + tdiv(mv.x * t3, 1000)) as i64,
                y: (rel_prev.y + tdiv(mv.y * t3, 1000)) as i64,
                z: (rel_prev.z + tdiv(mv.z * t3, 1000)) as i64,
            };
            norm_sq(cl) <= min_d * min_d
        }
    }
}

/// Swept-sphere overlap between two bodies over the last step of `dt`.
pub open spec fn swept_collision(a: Body, b: Body, dt: int) -> bool {
    swept_collision_points(
        prev_pos_of(a, dt),
        a.pos,
        prev_pos_of(b, dt),
        b.pos,
        a.phys.radius + b.phys.radius,
    )
}

/// Continuous collision detection between two moving spheres: their
/// current positions, their positions one step ago, and the combined
/// radius.
pub fn check_continuous_collision(
    prev_pos_a: Vec3i,
    pos_a: Vec3i,
    prev_pos_b: Vec3i,
    pos_b: Vec3i,
    min_distance: i64,
) -> (r: bool)
    requires
        pos_a.in_mag(POS_LIMIT as int),
        pos_b.in_mag(POS_LIMIT as int),
        prev_pos_a.in_mag(PREV_LIMIT as int),
        prev_pos_b.in_mag(PREV_LIMIT as int),
        0 <= min_distance <= 2 * RADIUS_LIMIT,
    ensures
        r == swept_collision_points(prev_pos_a, pos_a, prev_pos_b, pos_b, min_distance as int),
{
    let md: i128 = min_distance as i128;
    proof {
        assert(0 <= md * md <= 400_000_000_000_000_000_000_000_000int) by (nonlinear_arith)
            requires
                0 <= md <= 20_000_000_000_000i128,
        ;
    }
    let md_sq: i128 = md * md;
    let cur_sq = dist_sq_i128(pos_a, pos_b, POS_LIMIT);
    if cur_sq <= md_sq {
        return true;
    }
    let prev_sq = dist_sq_i128(prev_pos_a, prev_pos_b, PREV_LIMIT);
    if prev_sq <= md_sq {
        return true;
    }
    let rel_prev = Vec3i {
        x: prev_pos_a.x - prev_pos_b.x,
        y: prev_pos_a.y - prev_pos_b.y,
        z: prev_pos_a.z - prev_pos_b.z,
    };
    let mv = Vec3i {
        x: (pos_a.x - prev_pos_a.x) - (pos_b.x - prev_pos_b.x),
        y: (pos_a.y - prev_pos_a.y) - (pos_b.y - prev_pos_b.y),
        z: (pos_a.z - prev_pos_a.z) - (pos_b.z - prev_pos_b.z),
    };
    let mv_sq = norm_sq_i128(mv, 102_000_000_000_000_000);
    if mv_sq < MIN_RELATIVE_MOTION_SQ as i128 {
        return false;
    }
    let d = dot_i128(rel_prev, mv, 100_000_000_000_000_000, 102_000_000_000_000_000);
    let tn: i128 = if -d < 0 {
        0
    } else if -d > mv_sq {
        mv_sq
    } else {
        -d
    };
    proof {
        assert(tn == clamp_spec(-dot(rel_prev, mv), 0, norm_sq(mv)));
        lemma_tdiv_bound(tn * 1000, norm_sq(mv), 1000);
    }
    let t3 = div_trunc(tn * 1000, mv_sq);
    proof {
        assert(0 <= t3 <= 1000);
        assert(-102_000_000_000_000_000_000int <= (mv.x as int) * t3
            <= 102_000_000_000_000_000_000int && -102_000_000_000_000_000_000int <= (mv.y as int)
            * t3 <= 102_000_000_000_000_000_000int && -102_000_000_000_000_000_000int <= (
        mv.z as int) * t3 <= 102_000_000_000_000_000_000int) by (nonlinear_arith)
            requires
                0 <= t3 <= 1000,
                -102_000_000_000_000_000i64 <= mv.x <= 102_000_000_000_000_000i64,
                -102_000_000_000_000_000i64 <= mv.y <= 102_000_000_000_000_000i64,
                -102_000_000_000_000_000i64 <= mv.z <= 102_000_000_000_000_000i64,
        ;
        lemma_tdiv_bound((mv.x as int) * t3, 1000, 102_000_000_000_000_000int);
        lemma_tdiv_bound((mv.y as int) * t3, 1000, 102_000_000_000_000_000int);
        lemma_tdiv_bound((mv.z as int) * t3, 1000, 102_000_000_000_000_000int);
    }
    let cl = Vec3i {
        x: rel_prev.x + div_trunc((mv.x as i128) * t3, 1000) as i64,
        y: rel_prev.y + div_trunc((mv.y as i128) * t3, 1000) as i64,
        z: rel_prev.z + div_trunc((mv.z as i128) * t3, 1000) as i64,
    };
    let cl_sq = norm_sq_i128(cl, 210_000_000_000_000_000);
    cl_sq <= md_sq
}

/// The push that separates an overlapping pair: each component carries the
/// away-rounded share `delta_i * overlap / (2 d)` of the overlap, so that
/// doubling it stretches the offset to at least the touching distance.
pub open spec fn pair_separation(delta: Vec3i, d: int, overlap: int) -> (int, int, int) {
    (
        daway(delta.x * overlap, 2 * d),
        daway(delta.y * overlap, 2 * d),
        daway(delta.z * overlap, 2 * d),
    )
}

/// The two bodies after collision resolution: unchanged without swept
/// overlap or at zero distance; otherwise pushed apart to the touching
/// distance (positions clamped to the world bounds), and, when approaching,
/// with the restitution impulse applied to both velocities.
pub open spec fn resolve_pair_spec(a: Body, b: Body, dt: int) -> (Body, Body) {
    if !swept_collision(a, b, dt) {
        (a, b)
    } else {
        let delta = Vec3i {
            x: (a.pos.x - b.pos.x) as i64,
            y: (a.pos.y - b.pos.y) as i64,
            z: (a.pos.z - b.pos.z) as i64,
        };
        let dsq = norm_sq(delta);
        let d = sqrt_floor(dsq);
        if d <= 0 {
            (a, b)
        } else {
            let min_d = a.phys.radius + b.phys.radius;
            let overlap = min_d - d;
            let sep = if overlap > 0 {
                pair_separation(delta, d, overlap)
            } else {
                (0int, 0int, 0int)
            };
            let pa = Vec3i {
                x: clamp_spec(a.pos.x + sep.0, -(POS_LIMIT as int), POS_LIMIT as int) as i64,
                y: clamp_spec(a.pos.y + sep.1, -(POS_LIMIT as int), POS_LIMIT as int) as i64,
                z: clamp_spec(a.pos.z + sep.2, -(POS_LIMIT as int), POS_LIMIT as int) as i64,
            };
            let pb = Vec3i {
                x: clamp_spec(b.pos.x - sep.0, -(POS_LIMIT as int), POS_LIMIT as int) as i64,
                y: clamp_spec(b.pos.y - sep.1, -(POS_LIMIT as int), POS_LIMIT as int) as i64,
                z: clamp_spec(b.pos.z - sep.2, -(POS_LIMIT as int), POS_LIMIT as int) as i64,
            };
            let rv = Vec3i {
                x: (a.phys.vel.x - b.phys.vel.x) as i64,
                y: (a.phys.vel.y - b.phys.vel.y) as i64,
                z: (a.phys.vel.z - b.phys.vel.z) as i64,
            };
            let van = dot(rv, delta);
            let vels = if van < 0 {
                let u = tdiv(van, d);
                let msum = a.phys.mass + b.phys.mass;
                let ratio_a = tdiv(a.phys.mass * 1_000_000, msum);
                let ratio_b = tdiv(b.phys.mass * 1_000_000, msum);
                let k = (RESTITUTION_DEN + RESTITUTION_NUM) as int;
                let den = (RESTITUTION_DEN as int) * 1_000_000 * d;
                (
                    Vec3i {
                        x: clamp_spec(
                            a.phys.vel.x + tdiv((-(k * u)) * ratio_b * delta.x, den),
                            -(VEL_LIMIT as int),
                            VEL_LIMIT as int,
                        ) as i64,
                        y: clamp_spec(
                            a.phys.vel.y + tdiv((-(k * u)) * ratio_b * delta.y, den),
                            -(VEL_LIMIT as int),
                            VEL_LIMIT as int,
                        ) as i64,
                        z: clamp_spec(
                            a.phys.vel.z + tdiv((-(k * u)) * ratio_b * delta.z, den),
                            -(VEL_LIMIT as int),
                            VEL_LIMIT as int,
                        ) as i64,
                    },
                    Vec3i {
                        x: clamp_spec(
                            b.phys.vel.x + tdiv((k * u) * ratio_a * delta.x, den),
                            -(VEL_LIMIT as int),
                            VEL_LIMIT as int,
                        ) as i64,
                        y: clamp_spec(
                            b.phys.vel.y + tdiv((k * u) * ratio_a * delta.y, den),
                            -(VEL_LIMIT as int),
                            VEL_LIMIT as int,
                        ) as i64,
                        z: clamp_spec(
                            b.phys.vel.z + tdiv((k * u) * ratio_a * delta.z, den),
                            -(VEL_LIMIT as int),
                            VEL_LIMIT as int,
                        ) as i64,
                    },
                )
            } else {
                (a.phys.vel, b.phys.vel)
            };
            (
                Body {
                    pos: pa,
                    phys: PhysicsObject {
                        vel: vels.0,
                        mass: a.phys.mass,
                        radius: a.phys.radius,
                        applied_force: a.phys.applied_force,
                        central_body: a.phys.central_body,
                    },
                    is_user: a.is_user,
                },
                Body {
                    pos: pb,
                    phys: PhysicsObject {
                        vel: vels.1,
                        mass: b.phys.mass,
                        radius: b.phys.radius,
                        applied_force: b.phys.applied_force,
                        central_body: b.phys.central_body,
                    },
                    is_user: b.is_user,
                },
            )
        }
    }
}

/// One component of the backward extrapolation `pos - vel * dt`.
fn prev_comp(p: i64, v: i64, dt: u64) -> (r: i64)
    requires
        -POS_LIMIT <= p <= POS_LIMIT,
        -VEL_LIMIT <= v <= VEL_LIMIT,
        1 <= dt <= DT_LIMIT,
    ensures
        r == p - tdiv(v * dt, 1_000_000),
        -PREV_LIMIT <= r <= PREV_LIMIT,
{
    let dt128 = dt as i128;
    proof {
        assert(-40_000_000_000_000_000_000_000int <= (v as int) * dt128
            <= 40_000_000_000_000_000_000_000int) by (nonlinear_arith)
            requires
                -VEL_LIMIT <= v <= VEL_LIMIT,
                VEL_LIMIT == 10_000_000_000_000,
                1 <= dt128 <= 4_000_000_000,
        ;
        lemma_tdiv_bound((v as int) * dt128, 1_000_000int, 40_000_000_000_000_000int);
    }
    let q = div_trunc((v as i128) * dt128, 1_000_000);
    ((p as i128) - q) as i64
}

/// Resolves one unordered pair: detects swept overlap, separates the
/// bodies, and applies the restitution impulse when they approach.
#[verifier::rlimit(100)]
pub fn resolve_pair(a: Body, b: Body, dt: u64) -> (r: (Body, Body))
    requires
        a.wf(),
        b.wf(),
        1 <= dt <= DT_LIMIT,
    ensures
        r == resolve_pair_spec(a, b, dt as int),
        r.0.wf(),
        r.1.wf(),
{
    let prev_a = Vec3i {
        x: prev_comp(a.pos.x, a.phys.vel.x, dt),
        y: prev_comp(a.pos.y, a.phys.vel.y, dt),
        z: prev_comp(a.pos.z, a.phys.vel.z, dt),
    };
    let prev_b = Vec3i {
        x: prev_comp(b.pos.x, b.phys.vel.x, dt),
        y: prev_comp(b.pos.y, b.phys.vel.y, dt),
        z: prev_comp(b.pos.z, b.phys.vel.z, dt),
    };
    let min_d = a.phys.radius + b.phys.radius;
    if !check_continuous_collision(prev_a, a.pos, prev_b, b.pos, min_d) {
        return (a, b);
    }
    let delta = Vec3i { x: a.pos.x - b.pos.x, y: a.pos.y - b.pos.y, z: a.pos.z - b.pos.z };
    let dsq = norm_sq_i128(delta, 2_000_000_000_000_000);
    let d_u = isqrt(dsq as u128);
    proof {
        lemma_sqrt_floor_props(dsq as int);
        lemma_sqrt_floor_le(dsq as int, 7_000_000_000_000_000int);
    }
    if d_u == 0 {
        return (a, b);
    }
    let d: i128 = d_u as i128;
    let overlap: i128 = (min_d as i128) - d;

    let mut sx: i128 = 0;
    let mut sy: i128 = 0;
    let mut sz: i128 = 0;
    if overlap > 0 {
        proof {
            assert(-40_000_000_000_000_000_000_000_000_000int <= (delta.x as int) * overlap
                <= 40_000_000_000_000_000_000_000_000_000int
                && -40_000_000_000_000_000_000_000_000_000int <= (delta.y as int) * overlap
                <= 40_000_000_000_000_000_000_000_000_000int
                && -40_000_000_000_000_000_000_000_000_000int <= (delta.z as int) * overlap
                <= 40_000_000_000_000_000_000_000_000_000int) by (nonlinear_arith)
                requires
                    -2_000_000_000_000_000i64 <= delta.x <= 2_000_000_000_000_000i64,
                    -2_000_000_000_000_000i64 <= delta.y <= 2_000_000_000_000_000i64,
                    -2_000_000_000_000_000i64 <= delta.z <= 2_000_000_000_000_000i64,
                    0 < overlap <= 20_000_000_000_000i128,
            ;
            crate::num::lemma_daway_le((delta.x as int) * overlap, 2 * d);
            crate::num::lemma_daway_le((delta.y as int) * overlap, 2 * d);
            crate::num::lemma_daway_le((delta.z as int) * overlap, 2 * d);
        }
        sx = div_away((delta.x as i128) * overlap, 2 * d);
        sy = div_away((delta.y as i128) * overlap, 2 * d);
        sz = div_away((delta.z as i128) * overlap, 2 * d);
    }
    let pa = Vec3i {
        x: clamp_mag((a.pos.x as i128) + sx, POS_LIMIT),
        y: clamp_mag((a.pos.y as i128) + sy, POS_LIMIT),
        z: clamp_mag((a.pos.z as i128) + sz, POS_LIMIT),
    };
    let pb = Vec3i {
        x: clamp_mag((b.pos.x as i128) - sx, POS_LIMIT),
        y: clamp_mag((b.pos.y as i128) - sy, POS_LIMIT),
        z: clamp_mag((b.pos.z as i128) - sz, POS_LIMIT),
    };

    let rv = Vec3i {
        x: a.phys.vel.x - b.phys.vel.x,
        y: a.phys.vel.y - b.phys.vel.y,
        z: a.phys.vel.z - b.phys.vel.z,
    };
    let van = dot_i128(rv, delta, 20_000_000_000_000, 2_000_000_000_000_000);
    let mut va = a.phys.vel;
    let mut vb = b.phys.vel;
    if van < 0 {
        proof {
            assert(-d <= delta.x as int <= d && -d <= delta.y as int <= d && -d <= delta.z as int
                <= d) by (nonlinear_arith)
                requires
                    (delta.x as int) * (delta.x as int) + (delta.y as int) * (delta.y as int) + (
                    delta.z as int) * (delta.z as int) == dsq as int,
                    (dsq as int) < (d + 1) * (d + 1),
                    d >= 1,
            ;
            assert(-(60_000_000_000_000 * d) <= van <= 60_000_000_000_000 * d)
                by (nonlinear_arith)
                requires
                    van == (rv.x as int) * (delta.x as int) + (rv.y as int) * (delta.y as int) + (
                    rv.z as int) * (delta.z as int),
                    -20_000_000_000_000i64 <= rv.x <= 20_000_000_000_000i64,
                    -20_000_000_000_000i64 <= rv.y <= 20_000_000_000_000i64,
                    -20_000_000_000_000i64 <= rv.z <= 20_000_000_000_000i64,
                    -d <= delta.x as int <= d,
                    -d <= delta.y as int <= d,
                    -d <= delta.z as int <= d,
                    d >= 1,
            ;
            lemma_tdiv_bound(van as int, d as int, 60_000_000_000_000int);
        }
        let u = div_trunc(van, d);
        let msum: i128 = (a.phys.mass as i128) + (b.phys.mass as i128);
        proof {
            lemma_tdiv_bound((a.phys.mass as int) * 1_000_000, msum as int, 1_000_000int);
            lemma_tdiv_bound((b.phys.mass as int) * 1_000_000, msum as int, 1_000_000int);
        }
        let ratio_a = div_trunc((a.phys.mass as i128) * 1_000_000, msum);
        let ratio_b = div_trunc((b.phys.mass as i128) * 1_000_000, msum);
        let k: i128 = (RESTITUTION_DEN + RESTITUTION_NUM) as i128;
        let den: i128 = (RESTITUTION_DEN as i128) * 1_000_000 * d;
        proof {
            assert(-660_000_000_000_000int <= k * (u as int) <= 660_000_000_000_000int
                && -660_000_000_000_000_000_000int <= -(k * (u as int)) * ratio_b
                <= 660_000_000_000_000_000_000int && -660_000_000_000_000_000_000int <= (k * (
            u as int)) * ratio_a <= 660_000_000_000_000_000_000int) by (nonlinear_arith)
                requires
                    -60_000_000_000_000 <= u as int <= 60_000_000_000_000,
                    0 <= ratio_a <= 1_000_000,
                    0 <= ratio_b <= 1_000_000,
                    k == 11,
            ;
        }
        let ta: i128 = -(k * u) * ratio_b;
        let tb: i128 = (k * u) * ratio_a;
        proof {
            assert forall|t: int, dx: int|
                -660_000_000_000_000_000_000int <= t <= 660_000_000_000_000_000_000int && -d <= dx
                    <= d implies -(700_000_000_000_000 * ((RESTITUTION_DEN as int) * 1_000_000 * d))
                <= #[trigger] (t * dx) <= 700_000_000_000_000 * ((RESTITUTION_DEN as int)
                * 1_000_000 * d) by {
                assert(-(700_000_000_000_000int * (10_000_000 * d)) <= t * dx
                    <= 700_000_000_000_000int * (10_000_000 * d)) by (nonlinear_arith)
                    requires
                        -660_000_000_000_000_000_000int <= t <= 660_000_000_000_000_000_000int,
                        -d <= dx <= d,
                        d >= 1,
                ;
            }
            lemma_tdiv_bound(
                (ta as int) * (delta.x as int),
                (RESTITUTION_DEN as int) * 1_000_000 * (d as int),
                700_000_000_000_000int,
            );
            lemma_tdiv_bound(
                (ta as int) * (delta.y as int),
                (RESTITUTION_DEN as int) * 1_000_000 * (d as int),
                700_000_000_000_000int,
            );
            lemma_tdiv_bound(
                (ta as int) * (delta.z as int),
                (RESTITUTION_DEN as int) * 1_000_000 * (d as int),
                700_000_000_000_000int,
            );
            lemma_tdiv_bound(
                (tb as int) * (delta.x as int),
                (RESTITUTION_DEN as int) * 1_000_000 * (d as int),
                700_000_000_000_000int,
            );
            lemma_tdiv_bound(
                (tb as int) * (delta.y as int),
                (RESTITUTION_DEN as int) * 1_000_000 * (d as int),
                700_000_000_000_000int,
            );
            lemma_tdiv_bound(
                (tb as int) * (delta.z as int),
                (RESTITUTION_DEN as int) * 1_000_000 * (d as int),
                700_000_000_000_000int,
            );
        }
        va = Vec3i {
            x: clamp_mag((a.phys.vel.x as i128) + div_trunc(ta * (delta.x as i128), den), VEL_LIMIT),
            y: clamp_mag((a.phys.vel.y as i128) + div_trunc(ta * (delta.y as i128), den), VEL_LIMIT),
            z: clamp_mag((a.phys.vel.z as i128) + div_trunc(ta * (delta.z as i128), den), VEL_LIMIT),
        };
        vb = Vec3i {
            x: clamp_mag((b.phys.vel.x as i128) + div_trunc(tb * (delta.x as i128), den), VEL_LIMIT),
            y: clamp_mag((b.phys.vel.y as i128) + div_trunc(tb * (delta.y as i128), den), VEL_LIMIT),
            z: clamp_mag((b.phys.vel.z as i128) + div_trunc(tb * (delta.z as i128), den), VEL_LIMIT),
        };
    }
    let mut na = a;
    na.pos = pa;
    na.phys.vel = va;
    let mut nb = b;
    nb.pos = pb;
    nb.phys.vel = vb;
    (na, nb)
}

/// One component of the separation stretches by at least the factor
/// `(d + ov) / d`, squared and cleared of the denominator.
proof fn lemma_sep_component(di: int, d: int, ov: int)
    requires
        d >= 1,
        ov >= 1,
        -d <= di <= d,
    ensures
        ({
            let s = daway(di * ov, 2 * d);
            (di + 2 * s) * (di + 2 * s) * (d * d) >= di * di * ((d + ov) * (d + ov))
        }),
{
    let s = daway(di * ov, 2 * d);
    lemma_daway_mag(di * ov, 2 * d);
    if di >= 0 {
        assert(di * ov >= 0) by (nonlinear_arith)
            requires
                di >= 0,
                ov >= 1,
        ;
        assert((di + 2 * s) * (di + 2 * s) * (d * d) >= di * di * ((d + ov) * (d + ov)))
            by (nonlinear_arith)
            requires
                d >= 1,
                ov >= 1,
                0 <= di <= d,
                di * ov <= s * (2 * d),
                s >= 0,
        ;
    } else {
        assert(di * ov < 0) by (nonlinear_arith)
            requires
                di < 0,
                ov >= 1,
        ;
        assert((di + 2 * s) * (di + 2 * s) * (d * d) >= di * di * ((d + ov) * (d + ov)))
            by (nonlinear_arith)
            requires
                d >= 1,
                ov >= 1,
                -d <= di < 0,
                s * (2 * d) <= di * ov,
                s <= 0,
        ;
    }
}

/// Law (non-overlap): pushing a colliding pair at positive distance `d`
/// apart by the away-rounded half shares leaves the exact separated offset
/// at least the combined radius `min_d` long.
pub proof fn lemma_separation_restores_distance(delta: Vec3i, d: int, min_d: int)
    requires
        1 <= d,
        d * d <= norm_sq(delta),
        norm_sq(delta) < (d + 1) * (d + 1),
        d < min_d,
    ensures
        ({
            let sep = pair_separation(delta, d, min_d - d);
            let nx = delta.x + 2 * sep.0;
            let ny = delta.y + 2 * sep.1;
            let nz = delta.z + 2 * sep.2;
            nx * nx + ny * ny + nz * nz >= min_d * min_d
        }),
{
    let ov = min_d - d;
    let dx = delta.x as int;
    let dy = delta.y as int;
    let dz = delta.z as int;
    assert(-d <= dx <= d && -d <= dy <= d && -d <= dz <= d) by (nonlinear_arith)
        requires
            dx * dx + dy * dy + dz * dz < (d + 1) * (d + 1),
            dx * dx + dy * dy + dz * dz == norm_sq(delta),
            norm_sq(delta) >= d * d,
            d >= 1,
    ;
    lemma_sep_component(dx, d, ov);
    lemma_sep_component(dy, d, ov);
    lemma_sep_component(dz, d, ov);
    let sep = pair_separation(delta, d, ov);
    let nx = dx + 2 * sep.0;
    let ny = dy + 2 * sep.1;
    let nz = dz + 2 * sep.2;
    let lhs = nx * nx + ny * ny + nz * nz;
    let rhs = dx * dx + dy * dy + dz * dz;
    let m2 = (d + ov) * (d + ov);
    assert(lhs * (d * d) >= rhs * m2) by (nonlinear_arith)
        requires
            nx * nx * (d * d) >= dx * dx * m2,
            ny * ny * (d * d) >= dy * dy * m2,
            nz * nz * (d * d) >= dz * dz * m2,
            lhs == nx * nx + ny * ny + nz * nz,
            rhs == dx * dx + dy * dy + dz * dz,
    ;
    assert(rhs * m2 >= (d * d) * m2) by (nonlinear_arith)
        requires
            rhs >= d * d,
            m2 >= 0,
    ;
    assert(lhs >= m2) by (nonlinear_arith)
        requires
            lhs * (d * d) >= (d * d) * m2,
            d >= 1,
    ;
    assert(min_d * min_d == m2);
}

/// Law (collision impulse): the exact two-body impulse conserves momentum
/// and reverses the approach speed scaled by the restitution. With masses
/// `ma` and `mb`, approach speed `u` along the collision normal and
/// restitution `en/ed`, the impulse changes the velocities along the normal
/// by `dva = -(1 + en/ed) * u * mb / (ma + mb)` and
/// `dvb = (1 + en/ed) * u * ma / (ma + mb)`. Stated over the common
/// denominator `q = ed * (ma + mb)`: the momentum change
/// `ma * dva + mb * dvb` vanishes, and the new approach speed
/// `u + dva - dvb` equals `-(en/ed) * u`.
pub proof fn lemma_collision_impulse(ma: int, mb: int, u: int, en: int, ed: int)
    by (nonlinear_arith)
    requires
        ma > 0,
        mb > 0,
        ed > 0,
        en >= 0,
    ensures
        ({
            let q = ed * (ma + mb);
            let dva_n = -((ed + en) * u * mb);
            let dvb_n = (ed + en) * u * ma;
            &&& ma * dva_n + mb * dvb_n == 0
            &&& ed * (q * u + (dva_n - dvb_n)) == -(en * u * q)
        }),
{
}

/// Law (non-overlap, at the resolver): when a colliding pair at positive
/// distance overlaps and the separated positions stay inside the world
/// bounds, the resolved bodies' centres are at least the combined radius
/// apart.
pub proof fn lemma_resolve_pair_separates(a: Body, b: Body, dt: int)
    requires
        a.wf(),
        b.wf(),
        swept_collision(a, b, dt),
        ({
            let delta = Vec3i {
                x: (a.pos.x - b.pos.x) as i64,
                y: (a.pos.y - b.pos.y) as i64,
                z: (a.pos.z - b.pos.z) as i64,
            };
            let d = sqrt_floor(norm_sq(delta));
            let min_d = a.phys.radius + b.phys.radius;
            let sep = pair_separation(delta, d, min_d - d);
            &&& 1 <= d < min_d
            &&& -(POS_LIMIT as int) <= a.pos.x + sep.0 <= POS_LIMIT as int
            &&& -(POS_LIMIT as int) <= a.pos.y + sep.1 <= POS_LIMIT as int
            &&& -(POS_LIMIT as int) <= a.pos.z + sep.2 <= POS_LIMIT as int
            &&& -(POS_LIMIT as int) <= b.pos.x - sep.0 <= POS_LIMIT as int
            &&& -(POS_LIMIT as int) <= b.pos.y - sep.1 <= POS_LIMIT as int
            &&& -(POS_LIMIT as int) <= b.pos.z - sep.2 <= POS_LIMIT as int
        }),
    ensures
        ({
            let r = resolve_pair_spec(a, b, dt);
            let min_d = a.phys.radius + b.phys.radius;
            dist_sq(r.0.pos, r.1.pos) >= min_d * min_d
        }),
{
    let delta = Vec3i {
        x: (a.pos.x - b.pos.x) as i64,
        y: (a.pos.y - b.pos.y) as i64,
        z: (a.pos.z - b.pos.z) as i64,
    };
    let d = sqrt_floor(norm_sq(delta));
    let min_d = a.phys.radius + b.phys.radius;
    let ov = min_d - d;
    crate::vec3::lemma_norm_sq_bound(delta, 2 * POS_LIMIT as int);
    crate::num::lemma_sqrt_floor_props(norm_sq(delta));
    lemma_separation_restores_distance(delta, d, min_d as int);
    let sep = pair_separation(delta, d, ov);
    let r = resolve_pair_spec(a, b, dt);
    assert(r.0.pos.x == a.pos.x + sep.0 && r.0.pos.y == a.pos.y + sep.1 && r.0.pos.z == a.pos.z
        + sep.2);
    assert(r.1.pos.x == b.pos.x - sep.0 && r.1.pos.y == b.pos.y - sep.1 && r.1.pos.z == b.pos.z
        - sep.2);
    assert(r.0.pos.x - r.1.pos.x == delta.x + 2 * sep.0);
    assert(r.0.pos.y - r.1.pos.y == delta.y + 2 * sep.1);
    assert(r.0.pos.z - r.1.pos.z == delta.z + 2 * sep.2);
}

/// The sweep's pair update: both bodies of the pair replaced by their
/// resolved states.
pub open spec fn pair_apply(s: Seq<Body>, i: int, j: int, dt: int) -> Seq<Body> {
    let r = resolve_pair_spec(s[i], s[j], dt);
    s.update(i, r.0).update(j, r.1)
}

/// The state after resolving the pairs `(i, i+1)` through `(i, j-1)`, in
/// that order.
pub open spec fn sweep_inner(s: Seq<Body>, dt: int, i: int, j: int) -> Seq<Body>
    decreases j - i,
{
    if j <= i + 1 {
        s
    } else {
        pair_apply(sweep_inner(s, dt, i, j - 1), i, j - 1, dt)
    }
}

/// The state after resolving every unordered pair whose first index is
/// below `i`, first indices in ascending order.
pub open spec fn sweep_outer(s: Seq<Body>, dt: int, i: int) -> Seq<Body>
    decreases i,
{
    if i <= 0 {
        s
    } else {
        sweep_inner(sweep_outer(s, dt, i - 1), dt, i - 1, s.len() as int)
    }
}

/// Detects and resolves interpenetration between every distinct pair of
/// bodies, in ascending index order.
pub fn collision_system(bodies: &mut Vec<Body>, config: &Config)
    requires
        all_wf(old(bodies)@),
        old(bodies)@.len() <= MAX_BODIES,
        config.wf(),
    ensures
        final(bodies)@.len() == old(bodies)@.len(),
        all_wf(final(bodies)@),
        final(bodies)@ == sweep_outer(
            old(bodies)@,
            config.dt_micros as int,
            old(bodies)@.len() as int,
        ),
{
    let ghost s0 = bodies@;
    let dt = config.dt_micros;
    let n = bodies.len();
    let mut i: usize = 0;
    while i < n
        invariant
            0 <= i <= n,
            n == s0.len(),
            n <= MAX_BODIES,
            1 <= dt <= DT_LIMIT,
            bodies@.len() == n,
            all_wf(bodies@),
            bodies@ == sweep_outer(s0, dt as int, i as int),
        decreases n - i,
    {
        let ghost souter = bodies@;
        let mut j: usize = i + 1;
        while j < n
            invariant
                0 <= i < n,
                i + 1 <= j <= n,
                n == s0.len(),
                n <= MAX_BODIES,
                1 <= dt <= DT_LIMIT,
                bodies@.len() == n,
                all_wf(bodies@),
                bodies@ == sweep_inner(souter, dt as int, i as int, j as int),
                souter.len() == n,
            decreases n - j,
        {
            let a = bodies[i];
            let b = bodies[j];
            proof {
                assert(bodies@[i as int].wf());
                assert(bodies@[j as int].wf());
            }
            let ghost before = bodies@;
            let r = resolve_pair(a, b, dt);
            bodies[i] = r.0;
            bodies[j] = r.1;
            proof {
                assert(bodies@ == pair_apply(before, i as int, j as int, dt as int));
                assert(bodies@ == sweep_inner(souter, dt as int, i as int, j as int + 1));
                assert forall|q: int| 0 <= q < bodies@.len() implies #[trigger] bodies@[q].wf() by {
                    if q != i as int && q != j as int {
                        assert(before[q].wf());
                    }
                }
            }
            j = j + 1;
        }
        i = i + 1;
        proof {
            assert(bodies@ == sweep_outer(s0, dt as int, i as int));
        }
    }
}

} // verus!
