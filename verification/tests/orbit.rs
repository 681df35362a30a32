//! Long-running orbital scenarios: a craft on a circular low Earth orbit,
//! simulated for a full period.

use orbit_sim::config::Config;
use orbit_sim::constants::{EARTH_RADIUS, LEO_MIN_ALTITUDE};
use orbit_sim::gravity::gravity_system;
use orbit_sim::objectives::{objectives_system, Objective, ObjectiveTracker};
use orbit_sim::physics_object::{Body, PhysicsObject};
use orbit_sim::prediction::calculate_predictions_system;
use orbit_sim::vec3::Vec3i;

const EARTH_MASS: i64 = 746_500_000_000_000_000;
// Orbit radius: Earth radius plus a 300 km altitude, micro-units.
const ORBIT_RADIUS: i64 = 618_550_000_000;
// Circular speed sqrt(G * M / r) for that radius, micro-units per second.
const ORBIT_SPEED: i64 = 283_811_744;
// One orbital period is about 13694 s; simulate a little longer.
const PERIOD_TICKS: usize = 13_800;

fn v3(x: i64, y: i64, z: i64) -> Vec3i {
    Vec3i { x, y, z }
}

fn norm(p: Vec3i) -> i64 {
    let sq = (p.x as i128) * (p.x as i128) + (p.y as i128) * (p.y as i128) + (p.z as i128)
        * (p.z as i128);
    let mut lo: i128 = 0;
    let mut hi: i128 = 4_000_000_000_000_000_000;
    while lo + 1 < hi {
        let mid = lo + (hi - lo) / 2;
        if mid * mid <= sq {
            lo = mid;
        } else {
            hi = mid;
        }
    }
    lo as i64
}

fn leo_world() -> Vec<Body> {
    vec![
        Body {
            pos: v3(0, 0, 0),
            phys: PhysicsObject::new(EARTH_MASS, EARTH_RADIUS, v3(0, 0, 0), None),
            is_user: false,
        },
        Body {
            pos: v3(ORBIT_RADIUS, 0, 0),
            phys: PhysicsObject::new(589, 8_000_000, v3(0, ORBIT_SPEED, 0), None),
            is_user: true,
        },
    ]
}

#[test]
fn circular_orbit_radius_stays_within_tolerance() {
    // Two-body energy/orbit stability: over at least one full period the
    // craft's distance from the origin stays within 1% of the start radius.
    let mut bodies = leo_world();
    let config = Config {
        dt_micros: 1_000_000,
        time_multiplier: 1,
    };
    let tolerance = ORBIT_RADIUS / 100;
    for _ in 0..PERIOD_TICKS {
        gravity_system(&mut bodies, &config);
        let r = norm(bodies[1].pos);
        assert!((r - ORBIT_RADIUS).abs() <= tolerance);
    }
}

#[test]
fn leo_scenario_completes_orbit_objective_without_reset() {
    // The concrete mission scenario: the craft holds the low-orbit band for
    // a full period; the orbit objective's guard timer climbs to its
    // required duration and never resets.
    let mut bodies = leo_world();
    let config = Config {
        dt_micros: 1_000_000,
        time_multiplier: 1,
    };
    let mut tracker = ObjectiveTracker::default();
    let mut last_leo_elapsed: u64 = 0;
    let mut min_altitude = i64::MAX;
    for _ in 0..PERIOD_TICKS {
        gravity_system(&mut bodies, &config);
        let moon_positions: Vec<Vec3i> = bodies
            .iter()
            .filter(|b| !b.is_user)
            .map(|b| b.pos)
            .collect();
        objectives_system(
            &mut tracker,
            bodies[1].pos,
            bodies[1].phys.vel,
            &moon_positions,
            1_000_000,
        );
        // The guard timer only ever climbs: a reset never happens on this
        // trajectory.
        assert!(tracker.leo_stopwatch.elapsed_micros >= last_leo_elapsed);
        last_leo_elapsed = tracker.leo_stopwatch.elapsed_micros;
        let altitude = norm(bodies[1].pos) - EARTH_RADIUS;
        if altitude < min_altitude {
            min_altitude = altitude;
        }
    }
    // The craft never left the low-orbit band.
    assert!(min_altitude >= LEO_MIN_ALTITUDE);
    // With no moon nearby the escape objective completes at once, and the
    // orbit objective's timer then reaches its required duration.
    assert_eq!(
        tracker.progress.completed,
        vec![Objective::EscapeMoon, Objective::OrbitEarth]
    );
    assert!(matches!(tracker.progress.current, Objective::LandOnEarth));
    assert!(!tracker.progress.is_completed);
}

#[test]
fn predictor_traces_a_circle_for_a_circular_orbit() {
    // Predictor agreement: for the pure two-body circular case the sampled
    // points stay close to a circle of the orbit radius around the central
    // body, and the forecast stops after about one revolution.
    let mut bodies = leo_world();
    bodies[1].phys.central_body = Some(0);
    let predictions = calculate_predictions_system(&bodies);
    assert_eq!(predictions.len(), 2);
    // Earth has no central body, so it gets no forecast.
    assert!(predictions[0].points.is_empty());
    let points = &predictions[1].points;
    assert!(points.len() > 100);
    let tolerance = ORBIT_RADIUS * 4 / 100;
    for p in points.iter() {
        let r = norm(*p);
        assert!((r - ORBIT_RADIUS).abs() <= tolerance);
    }
    // The forecast covers most of a revolution: some sampled point reaches
    // the far side of the orbit.
    assert!(points.iter().any(|p| p.x < -ORBIT_RADIUS / 2));
}

#[test]
fn prediction_empty_for_slow_or_unanchored_bodies() {
    let mut bodies = leo_world();
    // No central body resolved: the forecast is empty.
    bodies[1].phys.central_body = None;
    let predictions = calculate_predictions_system(&bodies);
    assert!(predictions[1].points.is_empty());
    // Slower than the minimum speed: the forecast is empty too.
    bodies[1].phys.central_body = Some(0);
    bodies[1].phys.vel = v3(1_000_000, 0, 0);
    let predictions = calculate_predictions_system(&bodies);
    assert!(predictions[1].points.is_empty());
}
