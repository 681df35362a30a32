//! Trajectory prediction by iterative re-simulation: starting from the
//! body's current state, its future motion is stepped forward under the
//! gravity of its central body alone (the central body itself drifting at
//! constant velocity), with a step size adapted to the distance from the
//! central body. Points are stored relative to the simulated central body
//! and re-expressed around its current position, so an orbit appears
//! centred even while the central body moves. The forecast stops early at
//! a predicted collision with the central body or after one full
//! revolution.

use vstd::prelude::*;

use crate::constants::{
    ACCEL_LIMIT, MASS_LIMIT, MAX_PREDICTION_DT, MIN_PREDICTION_DT, MIN_PREDICTION_SPEED_SQ,
    MOON_ORBIT_RADIUS, MAX_BODIES, POS_LIMIT, PREDICTION_POINTS, RADIUS_LIMIT, VEL_LIMIT,
};
use crate::gravity::accel_contrib;
use crate::num::{
    clamp_mag, clamp_spec, div_trunc, isqrt, lemma_sqrt_floor_le, lemma_sqrt_floor_props,
    lemma_tdiv_bound, sqrt_floor, tdiv,
};
use crate::physics_object::{all_wf, Body};
use crate::vec3::{dist_sq, dist_sq_i128, norm_sq, norm_sq_i128, Vec3i};

verus! {

/// One full revolution, in micro-radians (2 pi rounded down).
pub const TAU_MICRORADIANS: i64 = 6_283_185;

/// Component that stores predicted trajectory points for a body.
#[derive(Clone, Debug)]
pub struct TrajectoryPrediction {
    /// Predicted world positions, oldest first.
    pub points: Vec<Vec3i>,
}

impl TrajectoryPrediction {
    /// An empty prediction.
    pub fn new() -> (r: TrajectoryPrediction)
        ensures
            r.points@ == Seq::<Vec3i>::empty(),
    {
        TrajectoryPrediction { points: Vec::new() }
    }
}

/// The predictor's step size: interpolated between the minimum and maximum
/// step by the surface-to-surface distance from the central body,
/// normalised by the Moon's orbit radius, and held inside the two bounds.
pub open spec fn adaptive_dt(body: Body, central: Body) -> int {
    let gap = sqrt_floor(dist_sq(body.pos, central.pos)) - body.phys.radius - central.phys.radius;
    let nd = if gap > 0 {
        gap
    } else {
        0
    };
    let dt = MIN_PREDICTION_DT + tdiv(
        nd * ((MAX_PREDICTION_DT - MIN_PREDICTION_DT) as int),
        MOON_ORBIT_RADIUS as int,
    );
    if dt > MAX_PREDICTION_DT {
        MAX_PREDICTION_DT as int
    } else {
        dt
    }
}

/// One simulated step: the craft's velocity gains the central body's
/// gravity, the craft then moves with the new velocity, and the central
/// body drifts at its constant velocity. All components are clamped to the
/// world bounds.
pub open spec fn predict_step(
    sp: Vec3i,
    sv: Vec3i,
    scp: Vec3i,
    central_mass: i64,
    central_vel: Vec3i,
    dt: int,
) -> (Vec3i, Vec3i, Vec3i) {
    let a = accel_contrib(scp, central_mass, sp);
    let nv = Vec3i {
        x: clamp_spec(sv.x + tdiv(a.0 * dt, 1_000_000), -(VEL_LIMIT as int), VEL_LIMIT as int)
            as i64,
        y: clamp_spec(sv.y + tdiv(a.1 * dt, 1_000_000), -(VEL_LIMIT as int), VEL_LIMIT as int)
            as i64,
        z: clamp_spec(sv.z + tdiv(a.2 * dt, 1_000_000), -(VEL_LIMIT as int), VEL_LIMIT as int)
            as i64,
    };
    let np = Vec3i {
        x: clamp_spec(sp.x + tdiv(nv.x * dt, 1_000_000), -(POS_LIMIT as int), POS_LIMIT as int)
            as i64,
        y: clamp_spec(sp.y + tdiv(nv.y * dt, 1_000_000), -(POS_LIMIT as int), POS_LIMIT as int)
            as i64,
        z: clamp_spec(sp.z + tdiv(nv.z * dt, 1_000_000), -(POS_LIMIT as int), POS_LIMIT as int)
            as i64,
    };
    let ncp = Vec3i {
        x: clamp_spec(
            scp.x + tdiv(central_vel.x * dt, 1_000_000),
            -(POS_LIMIT as int),
            POS_LIMIT as int,
        ) as i64,
        y: clamp_spec(
            scp.y + tdiv(central_vel.y * dt, 1_000_000),
            -(POS_LIMIT as int),
            POS_LIMIT as int,
        ) as i64,
        z: clamp_spec(
            scp.z + tdiv(central_vel.z * dt, 1_000_000),
            -(POS_LIMIT as int),
            POS_LIMIT as int,
        ) as i64,
    };
    (np, nv, ncp)
}

/// The turn between two consecutive relative positions, in micro-radians:
/// the magnitude of their cross product over the product of their norms
/// (the sine of the step angle, which approximates the angle for the small
/// steps the predictor takes), with positions reduced to whole units.
pub open spec fn angle_step(prev: Vec3i, cur: Vec3i) -> int {
    let px = tdiv(prev.x as int, 1_000_000);
    let py = tdiv(prev.y as int, 1_000_000);
    let pz = tdiv(prev.z as int, 1_000_000);
    let cx = tdiv(cur.x as int, 1_000_000);
    let cy = tdiv(cur.y as int, 1_000_000);
    let cz = tdiv(cur.z as int, 1_000_000);
    let rx = py * cz - pz * cy;
    let ry = pz * cx - px * cz;
    let rz = px * cy - py * cx;
    let cl = sqrt_floor(rx * rx + ry * ry + rz * rz);
    let pl = sqrt_floor(px * px + py * py + pz * pz);
    let ql = sqrt_floor(cx * cx + cy * cy + cz * cz);
    if pl * ql == 0 {
        0
    } else {
        tdiv(cl * 1_000_000, pl * ql)
    }
}

/// The predicted world points after the starting point: each step yields
/// the new position relative to the simulated central body, re-expressed
/// around the central body's current position `c0`; the sequence ends at
/// the sample budget, at a predicted collision with the central body, or
/// once the accumulated turn exceeds a full revolution.
pub open spec fn predict_rec(
    sp: Vec3i,
    sv: Vec3i,
    scp: Vec3i,
    central_mass: i64,
    central_vel: Vec3i,
    c0: Vec3i,
    min_d: int,
    dt: int,
    total_angle: int,
    prev_rel: Vec3i,
    remaining: nat,
) -> Seq<Vec3i>
    decreases remaining,
{
    if remaining == 0 {
        Seq::empty()
    } else {
        let st = predict_step(sp, sv, scp, central_mass, central_vel, dt);
        let rel = Vec3i {
            x: (st.0.x - st.2.x) as i64,
            y: (st.0.y - st.2.y) as i64,
            z: (st.0.z - st.2.z) as i64,
        };
        let wp = Vec3i { x: (c0.x + rel.x) as i64, y: (c0.y + rel.y) as i64, z: (c0.z + rel.z) as i64 };
        seq![wp] + if norm_sq(rel) < min_d * min_d {
            Seq::empty()
        } else {
            let ang = angle_step(prev_rel, rel);
            if total_angle + ang > TAU_MICRORADIANS {
                Seq::empty()
            } else {
                predict_rec(
                    st.0,
                    st.1,
                    st.2,
                    central_mass,
                    central_vel,
                    c0,
                    min_d,
                    dt,
                    total_angle + ang,
                    rel,
                    (remaining - 1) as nat,
                )
            }
        }
    }
}

/// Computes the adaptive step size for one body and its central body.
fn adaptive_dt_exec(body: &Body, central: &Body) -> (r: u64)
    requires
        body.wf(),
        central.wf(),
    ensures
        r as int == adaptive_dt(*body, *central),
        MIN_PREDICTION_DT <= r <= MAX_PREDICTION_DT,
{
    let dsq = dist_sq_i128(body.pos, central.pos, POS_LIMIT);
    let dist = isqrt(dsq as u128);
    proof {
        lemma_sqrt_floor_props(dsq as int);
        lemma_sqrt_floor_le(dsq as int, 3_500_000_000_000_000int);
    }
    let gap: i64 = (dist as i64) - body.phys.radius - central.phys.radius;
    let nd: i64 = if gap > 0 {
        gap
    } else {
        0
    };
    proof {
        assert(0 <= (nd as int) * 2_038_000_000 <= 7_200_000_000_000_000_000_000_000int)
            by (nonlinear_arith)
            requires
                0 <= nd <= 3_500_000_000_000_000i64,
        ;
        lemma_tdiv_bound(
            (nd as int) * 2_038_000_000,
            MOON_ORBIT_RADIUS as int,
            1_000_000_000_000int,
        );
        assert((MAX_PREDICTION_DT - MIN_PREDICTION_DT) as int == 2_038_000_000int);
    }
    let q = div_trunc(
        (nd as i128) * ((MAX_PREDICTION_DT - MIN_PREDICTION_DT) as i128),
        MOON_ORBIT_RADIUS as i128,
    );
    let dtv: i128 = (MIN_PREDICTION_DT as i128) + q;
    if dtv > MAX_PREDICTION_DT as i128 {
        MAX_PREDICTION_DT
    } else {
        dtv as u64
    }
}

/// Computes one simulated predictor step.
fn predict_step_exec(
    sp: Vec3i,
    sv: Vec3i,
    scp: Vec3i,
    central_mass: i64,
    central_vel: Vec3i,
    dt: u64,
) -> (r: (Vec3i, Vec3i, Vec3i))
    requires
        sp.in_mag(POS_LIMIT as int),
        scp.in_mag(POS_LIMIT as int),
        sv.in_mag(VEL_LIMIT as int),
        central_vel.in_mag(VEL_LIMIT as int),
        0 < central_mass <= MASS_LIMIT,
        1 <= dt <= MAX_PREDICTION_DT,
    ensures
        r == predict_step(sp, sv, scp, central_mass, central_vel, dt as int),
        r.0.in_mag(POS_LIMIT as int),
        r.1.in_mag(VEL_LIMIT as int),
        r.2.in_mag(POS_LIMIT as int),
{
    let a = crate::gravity::contrib_exec(scp, central_mass, sp);
    let dt128 = dt as i128;
    proof {
        assert(-880_000_000_000_000_000_000_000int <= (a.x as int) * dt128
            <= 880_000_000_000_000_000_000_000int && -880_000_000_000_000_000_000_000int <= (
        a.y as int) * dt128 <= 880_000_000_000_000_000_000_000int
            && -880_000_000_000_000_000_000_000int <= (a.z as int) * dt128
            <= 880_000_000_000_000_000_000_000int) by (nonlinear_arith)
            requires
                -ACCEL_LIMIT <= a.x <= ACCEL_LIMIT,
                -ACCEL_LIMIT <= a.y <= ACCEL_LIMIT,
                -ACCEL_LIMIT <= a.z <= ACCEL_LIMIT,
                ACCEL_LIMIT == 428_000_000_000_000,
                1 <= dt128 <= 2_048_000_000,
        ;
        lemma_tdiv_bound((a.x as int) * dt128, 1_000_000int, 880_000_000_000_000_000int);
        lemma_tdiv_bound((a.y as int) * dt128, 1_000_000int, 880_000_000_000_000_000int);
        lemma_tdiv_bound((a.z as int) * dt128, 1_000_000int, 880_000_000_000_000_000int);
    }
    let nv = Vec3i {
        x: clamp_mag((sv.x as i128) + div_trunc((a.x as i128) * dt128, 1_000_000), VEL_LIMIT),
        y: clamp_mag((sv.y as i128) + div_trunc((a.y as i128) * dt128, 1_000_000), VEL_LIMIT),
        z: clamp_mag((sv.z as i128) + div_trunc((a.z as i128) * dt128, 1_000_000), VEL_LIMIT),
    };
    proof {
        assert forall|v: int|
            -(VEL_LIMIT as int) <= v <= VEL_LIMIT as int implies -21_000_000_000_000_000_000_000int
            <= #[trigger] (v * dt128) <= 21_000_000_000_000_000_000_000int by {
            assert(-21_000_000_000_000_000_000_000int <= v * dt128
                <= 21_000_000_000_000_000_000_000int) by (nonlinear_arith)
                requires
                    -10_000_000_000_000int <= v <= 10_000_000_000_000int,
                    1 <= dt128 <= 2_048_000_000,
            ;
        }
        lemma_tdiv_bound((nv.x as int) * dt128, 1_000_000int, 21_000_000_000_000_000int);
        lemma_tdiv_bound((nv.y as int) * dt128, 1_000_000int, 21_000_000_000_000_000int);
        lemma_tdiv_bound((nv.z as int) * dt128, 1_000_000int, 21_000_000_000_000_000int);
        lemma_tdiv_bound((central_vel.x as int) * dt128, 1_000_000int, 21_000_000_000_000_000int);
        lemma_tdiv_bound((central_vel.y as int) * dt128, 1_000_000int, 21_000_000_000_000_000int);
        lemma_tdiv_bound((central_vel.z as int) * dt128, 1_000_000int, 21_000_000_000_000_000int);
    }
    let np = Vec3i {
        x: clamp_mag((sp.x as i128) + div_trunc((nv.x as i128) * dt128, 1_000_000), POS_LIMIT),
        y: clamp_mag((sp.y as i128) + div_trunc((nv.y as i128) * dt128, 1_000_000), POS_LIMIT),
        z: clamp_mag((sp.z as i128) + div_trunc((nv.z as i128) * dt128, 1_000_000), POS_LIMIT),
    };
    let ncp = Vec3i {
        x: clamp_mag(
            (scp.x as i128) + div_trunc((central_vel.x as i128) * dt128, 1_000_000),
            POS_LIMIT,
        ),
        y: clamp_mag(
            (scp.y as i128) + div_trunc((central_vel.y as i128) * dt128, 1_000_000),
            POS_LIMIT,
        ),
        z: clamp_mag(
            (scp.z as i128) + div_trunc((central_vel.z as i128) * dt128, 1_000_000),
            POS_LIMIT,
        ),
    };
    (np, nv, ncp)
}

/// Computes the turn between two consecutive relative positions.
fn angle_step_exec(prev: Vec3i, cur: Vec3i) -> (r: i128)
    requires
        prev.in_mag(2 * POS_LIMIT as int),
        cur.in_mag(2 * POS_LIMIT as int),
    ensures
        r == angle_step(prev, cur),
        0 <= r <= 14_000_000_000_000_000_000_000_000i128,
{
    proof {
        lemma_tdiv_bound(prev.x as int, 1_000_000int, 2_000_000_000int);
        lemma_tdiv_bound(prev.y as int, 1_000_000int, 2_000_000_000int);
        lemma_tdiv_bound(prev.z as int, 1_000_000int, 2_000_000_000int);
        lemma_tdiv_bound(cur.x as int, 1_000_000int, 2_000_000_000int);
        lemma_tdiv_bound(cur.y as int, 1_000_000int, 2_000_000_000int);
        lemma_tdiv_bound(cur.z as int, 1_000_000int, 2_000_000_000int);
    }
    let px = div_trunc(prev.x as i128, 1_000_000);
    let py = div_trunc(prev.y as i128, 1_000_000);
    let pz = div_trunc(prev.z as i128, 1_000_000);
    let cx = div_trunc(cur.x as i128, 1_000_000);
    let cy = div_trunc(cur.y as i128, 1_000_000);
    let cz = div_trunc(cur.z as i128, 1_000_000);
    proof {
        assert forall|u: int, v: int|
            -2_000_000_000 <= u <= 2_000_000_000 && -2_000_000_000 <= v
                <= 2_000_000_000 implies -4_000_000_000_000_000_000int <= #[trigger] (u * v)
            <= 4_000_000_000_000_000_000int by {
            assert(-4_000_000_000_000_000_000int <= u * v <= 4_000_000_000_000_000_000int)
                by (nonlinear_arith)
                requires
                    -2_000_000_000 <= u <= 2_000_000_000,
                    -2_000_000_000 <= v <= 2_000_000_000,
            ;
        }
    }
    let rx: i128 = py * cz - pz * cy;
    let ry: i128 = pz * cx - px * cz;
    let rz: i128 = px * cy - py * cx;
    let rxa: u128 = if rx >= 0 {
        rx as u128
    } else {
        (-rx) as u128
    };
    let rya: u128 = if ry >= 0 {
        ry as u128
    } else {
        (-ry) as u128
    };
    let rza: u128 = if rz >= 0 {
        rz as u128
    } else {
        (-rz) as u128
    };
    proof {
        assert((rxa as int) * (rxa as int) == rx * rx && (rxa as int) * (rxa as int)
            <= 64_000_000_000_000_000_000_000_000_000_000_000_000int) by (nonlinear_arith)
            requires
                0 <= rxa <= 8_000_000_000_000_000_000u128,
                rxa == rx || rxa as int == -(rx as int),
        ;
        assert((rya as int) * (rya as int) == ry * ry && (rya as int) * (rya as int)
            <= 64_000_000_000_000_000_000_000_000_000_000_000_000int) by (nonlinear_arith)
            requires
                0 <= rya <= 8_000_000_000_000_000_000u128,
                rya == ry || rya as int == -(ry as int),
        ;
        assert((rza as int) * (rza as int) == rz * rz && (rza as int) * (rza as int)
            <= 64_000_000_000_000_000_000_000_000_000_000_000_000int) by (nonlinear_arith)
            requires
                0 <= rza <= 8_000_000_000_000_000_000u128,
                rza == rz || rza as int == -(rz as int),
        ;
    }
    let csq: u128 = rxa * rxa + rya * rya + rza * rza;
    let cl = isqrt(csq);
    proof {
        assert(0 <= px * px + py * py + pz * pz <= 12_000_000_000_000_000_000int && 0 <= cx * cx
            + cy * cy + cz * cz <= 12_000_000_000_000_000_000int) by (nonlinear_arith)
            requires
                -2_000_000_000 <= px <= 2_000_000_000,
                -2_000_000_000 <= py <= 2_000_000_000,
                -2_000_000_000 <= pz <= 2_000_000_000,
                -2_000_000_000 <= cx <= 2_000_000_000,
                -2_000_000_000 <= cy <= 2_000_000_000,
                -2_000_000_000 <= cz <= 2_000_000_000,
        ;
    }
    let psq: i128 = px * px + py * py + pz * pz;
    let qsq: i128 = cx * cx + cy * cy + cz * cz;
    let pl = isqrt(psq as u128);
    let ql = isqrt(qsq as u128);
    proof {
        lemma_sqrt_floor_props(csq as int);
        lemma_sqrt_floor_le(csq as int, 14_000_000_000_000_000_000int);
        lemma_sqrt_floor_props(psq as int);
        lemma_sqrt_floor_le(psq as int, 3_500_000_000int);
        lemma_sqrt_floor_props(qsq as int);
        lemma_sqrt_floor_le(qsq as int, 3_500_000_000int);
        assert(0 <= (pl as int) * (ql as int) <= 12_250_000_000_000_000_000int)
            by (nonlinear_arith)
            requires
                0 <= pl as int <= 3_500_000_000int,
                0 <= ql as int <= 3_500_000_000int,
        ;
    }
    let plql: u128 = pl * ql;
    if plql == 0 {
        0
    } else {
        proof {
            lemma_tdiv_bound(
                (cl as int) * 1_000_000,
                (plql) as int,
                14_000_000_000_000_000_000_000_000int,
            );
        }
        div_trunc((cl as i128) * 1_000_000, plql as i128)
    }
}

/// The prediction owed to body `k` of the arena: empty when the body is
/// too slow or its central-body link does not name another usable body,
/// otherwise the start position followed by the forecast.
pub open spec fn prediction_spec(s: Seq<Body>, k: int) -> Seq<Vec3i> {
    let b = s[k];
    if norm_sq(b.phys.vel) < MIN_PREDICTION_SPEED_SQ {
        Seq::empty()
    } else {
        match b.phys.central_body {
            None => Seq::empty(),
            Some(c) => if c as int >= s.len() || s[c as int].is_user {
                Seq::empty()
            } else {
                let ct = s[c as int];
                seq![b.pos] + predict_rec(
                    b.pos,
                    b.phys.vel,
                    ct.pos,
                    ct.phys.mass,
                    ct.phys.vel,
                    ct.pos,
                    (b.phys.radius + ct.phys.radius) as int,
                    adaptive_dt(b, ct),
                    0,
                    Vec3i {
                        x: (b.pos.x - ct.pos.x) as i64,
                        y: (b.pos.y - ct.pos.y) as i64,
                        z: (b.pos.z - ct.pos.z) as i64,
                    },
                    (PREDICTION_POINTS - 1) as nat,
                )
            },
        }
    }
}

/// Forecasts one body's motion around its central body.
#[verifier::rlimit(100)]
pub fn predict_trajectory(body: &Body, central: &Body) -> (r: Vec<Vec3i>)
    requires
        body.wf(),
        central.wf(),
    ensures
        r@ == seq![body.pos] + predict_rec(
            body.pos,
            body.phys.vel,
            central.pos,
            central.phys.mass,
            central.phys.vel,
            central.pos,
            (body.phys.radius + central.phys.radius) as int,
            adaptive_dt(*body, *central),
            0,
            Vec3i {
                x: (body.pos.x - central.pos.x) as i64,
                y: (body.pos.y - central.pos.y) as i64,
                z: (body.pos.z - central.pos.z) as i64,
            },
            (PREDICTION_POINTS - 1) as nat,
        ),
{
    let dt = adaptive_dt_exec(body, central);
    let c0 = central.pos;
    let cm = central.phys.mass;
    let cv = central.phys.vel;
    let min_d = body.phys.radius + central.phys.radius;
    let mut points: Vec<Vec3i> = Vec::new();
    points.push(body.pos);
    let mut sp = body.pos;
    let mut sv = body.phys.vel;
    let mut scp = central.pos;
    let mut total: i128 = 0;
    let mut prev_rel = Vec3i {
        x: body.pos.x - central.pos.x,
        y: body.pos.y - central.pos.y,
        z: body.pos.z - central.pos.z,
    };
    let ghost target = seq![body.pos] + predict_rec(
        body.pos,
        body.phys.vel,
        central.pos,
        central.phys.mass,
        central.phys.vel,
        central.pos,
        (body.phys.radius + central.phys.radius) as int,
        adaptive_dt(*body, *central),
        0,
        prev_rel,
        (PREDICTION_POINTS - 1) as nat,
    );
    let mut i: usize = 0;
    let mut done = false;
    while i < PREDICTION_POINTS - 1 && !done
        invariant
            0 <= i <= PREDICTION_POINTS - 1,
            0 < cm <= MASS_LIMIT,
            cv.in_mag(VEL_LIMIT as int),
            c0.in_mag(POS_LIMIT as int),
            0 <= min_d <= 2 * RADIUS_LIMIT,
            MIN_PREDICTION_DT <= dt <= MAX_PREDICTION_DT,
            sp.in_mag(POS_LIMIT as int),
            scp.in_mag(POS_LIMIT as int),
            sv.in_mag(VEL_LIMIT as int),
            prev_rel.in_mag(2 * POS_LIMIT as int),
            !done ==> 0 <= total <= TAU_MICRORADIANS,
            !done ==> target == points@ + predict_rec(
                sp,
                sv,
                scp,
                cm,
                cv,
                c0,
                min_d as int,
                dt as int,
                total as int,
                prev_rel,
                (PREDICTION_POINTS - 1 - i) as nat,
            ),
            done ==> target == points@,
        decreases PREDICTION_POINTS - 1 - i,
    {
        let st = predict_step_exec(sp, sv, scp, cm, cv, dt);
        let rel = Vec3i { x: st.0.x - st.2.x, y: st.0.y - st.2.y, z: st.0.z - st.2.z };
        let wp = Vec3i { x: c0.x + rel.x, y: c0.y + rel.y, z: c0.z + rel.z };
        points.push(wp);
        let rsq = norm_sq_i128(rel, 2_000_000_000_000_000);
        proof {
            assert(0 <= (min_d as int) * (min_d as int) <= 400_000_000_000_000_000_000_000_000int)
                by (nonlinear_arith)
                requires
                    0 <= min_d <= 20_000_000_000_000i64,
            ;
        }
        if rsq < (min_d as i128) * (min_d as i128) {
            done = true;
        } else {
            let ang = angle_step_exec(prev_rel, rel);
            total = total + ang;
            if total > TAU_MICRORADIANS as i128 {
                done = true;
            } else {
                sp = st.0;
                sv = st.1;
                scp = st.2;
                prev_rel = rel;
            }
        }
        i = i + 1;
    }
    points
}

/// Recomputes the trajectory prediction of every body in the arena, one
/// prediction per body, from the current state.
pub fn calculate_predictions_system(bodies: &Vec<Body>) -> (r: Vec<TrajectoryPrediction>)
    requires
        all_wf(bodies@),
        bodies@.len() <= MAX_BODIES,
    ensures
        r@.len() == bodies@.len(),
        forall|k: int|
            0 <= k < bodies@.len() ==> (#[trigger] r@[k]).points@ == prediction_spec(bodies@, k),
{
    let n = bodies.len();
    let mut preds: Vec<TrajectoryPrediction> = Vec::new();
    let mut k: usize = 0;
    while k < n
        invariant
            all_wf(bodies@),
            bodies@.len() == n,
            0 <= k <= n,
            preds@.len() == k,
            forall|i: int|
                0 <= i < k ==> (#[trigger] preds@[i]).points@ == prediction_spec(bodies@, i),
        decreases n - k,
    {
        let b = bodies[k];
        proof {
            assert(bodies@[k as int].wf());
        }
        let vsq = norm_sq_i128(b.phys.vel, VEL_LIMIT);
        if vsq < MIN_PREDICTION_SPEED_SQ as i128 {
            preds.push(TrajectoryPrediction::new());
        } else {
            match b.phys.central_body {
                None => {
                    preds.push(TrajectoryPrediction::new());
                },
                Some(c) => {
                    if c >= n {
                        preds.push(TrajectoryPrediction::new());
                    } else {
                        let ct = bodies[c];
                        if ct.is_user {
                            preds.push(TrajectoryPrediction::new());
                        } else {
                            proof {
                                assert(bodies@[c as int].wf());
                            }
                            let points = predict_trajectory(&b, &ct);
                            preds.push(TrajectoryPrediction { points });
                        }
                    }
                },
            }
        }
        k = k + 1;
    }
    preds
}

} // verus!
