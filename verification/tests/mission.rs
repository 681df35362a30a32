use orbit_sim::constants::{EARTH_RADIUS, MOON_RADIUS};
use orbit_sim::objectives::{
    check_earth_landing_objective, check_escape_moon_objective, check_orbit_objective,
    nearest_body_context, objectives_system, CelestialBodyContext, Objective, ObjectiveProgress,
    ObjectiveTracker, Stopwatch, UserContext,
};
use orbit_sim::vec3::Vec3i;

fn v3(x: i64, y: i64, z: i64) -> Vec3i {
    Vec3i { x, y, z }
}

fn earth_context(distance: i64) -> CelestialBodyContext {
    CelestialBodyContext {
        distance,
        radius: EARTH_RADIUS,
        position: v3(0, 0, 0),
        is_moon_central: false,
    }
}

fn orbit_tracker() -> ObjectiveTracker {
    ObjectiveTracker {
        progress: ObjectiveProgress {
            current: Objective::OrbitEarth,
            completed: vec![Objective::EscapeMoon],
            is_completed: false,
            completion_time: None,
        },
        check_stopwatch: Stopwatch::new(),
        escape_stopwatch: Stopwatch::new(),
        leo_stopwatch: Stopwatch::new(),
    }
}

#[test]
fn objective_titles() {
    assert_eq!(Objective::EscapeMoon.title(), "Escape Moon");
    assert_eq!(Objective::OrbitEarth.title(), "Earth Orbit");
    assert_eq!(Objective::LandOnEarth.title(), "Earth Landing");
}

#[test]
fn progress_advances_through_the_canonical_order() {
    let mut p = ObjectiveProgress::default();
    assert!(matches!(p.current, Objective::EscapeMoon));
    assert!(p.completed.is_empty());
    assert!(!p.all_completed());

    p.complete_current(7);
    assert_eq!(p.completed, vec![Objective::EscapeMoon]);
    assert_eq!(p.completion_time, Some(7));
    // A second completion before advancing changes nothing.
    p.complete_current(9);
    assert_eq!(p.completed, vec![Objective::EscapeMoon]);
    assert_eq!(p.completion_time, Some(7));

    p.advance_to_next();
    assert!(matches!(p.current, Objective::OrbitEarth));
    assert!(!p.is_completed);
    assert_eq!(p.completion_time, None);
    // Advancing while the current objective is open changes nothing.
    p.advance_to_next();
    assert!(matches!(p.current, Objective::OrbitEarth));

    p.complete_current(11);
    p.advance_to_next();
    assert!(matches!(p.current, Objective::LandOnEarth));
    p.complete_current(13);
    assert!(p.all_completed());
    assert_eq!(
        p.completed,
        vec![
            Objective::EscapeMoon,
            Objective::OrbitEarth,
            Objective::LandOnEarth
        ]
    );
    // The terminal state is stable.
    p.advance_to_next();
    assert!(matches!(p.current, Objective::LandOnEarth));
    assert!(p.is_completed);
}

#[test]
fn guard_timer_resets_fully_on_guard_failure() {
    let mut t = orbit_tracker();
    let ctx = earth_context(EARTH_RADIUS + 100_000_000_000);
    // Tangential velocity: the guard holds and the timer climbs.
    let orbital = UserContext {
        position: v3(EARTH_RADIUS + 100_000_000_000, 0, 0),
        velocity: v3(0, 300_000_000, 0),
    };
    check_orbit_objective(&mut t, &ctx, &orbital, 400_000);
    assert_eq!(t.leo_stopwatch.elapsed_micros, 400_000);
    check_orbit_objective(&mut t, &ctx, &orbital, 300_000);
    assert_eq!(t.leo_stopwatch.elapsed_micros, 700_000);
    // Radial velocity: the guard fails and the timer forgets everything.
    let radial = UserContext {
        position: v3(EARTH_RADIUS + 100_000_000_000, 0, 0),
        velocity: v3(300_000_000, 0, 0),
    };
    check_orbit_objective(&mut t, &ctx, &radial, 400_000);
    assert_eq!(t.leo_stopwatch.elapsed_micros, 0);
    assert!(!t.progress.is_completed);
}

#[test]
fn orbit_objective_requires_the_altitude_band() {
    let mut t = orbit_tracker();
    // Below the low-orbit altitude the timer resets even with tangential
    // velocity.
    let ctx = earth_context(EARTH_RADIUS + 10_000_000_000);
    let user = UserContext {
        position: v3(EARTH_RADIUS + 10_000_000_000, 0, 0),
        velocity: v3(0, 300_000_000, 0),
    };
    t.leo_stopwatch.tick(500_000);
    check_orbit_objective(&mut t, &ctx, &user, 400_000);
    assert_eq!(t.leo_stopwatch.elapsed_micros, 0);
}

#[test]
fn orbit_objective_completes_after_continuous_duration() {
    let mut t = orbit_tracker();
    let ctx = earth_context(EARTH_RADIUS + 100_000_000_000);
    let user = UserContext {
        position: v3(EARTH_RADIUS + 100_000_000_000, 0, 0),
        velocity: v3(0, 300_000_000, 0),
    };
    check_orbit_objective(&mut t, &ctx, &user, 600_000);
    assert!(!t.progress.is_completed);
    check_orbit_objective(&mut t, &ctx, &user, 600_000);
    assert!(t.progress.is_completed);
    assert_eq!(t.progress.completion_time, Some(1_200_000));
    assert_eq!(
        t.progress.completed,
        vec![Objective::EscapeMoon, Objective::OrbitEarth]
    );
}

#[test]
fn escape_objective_needs_time_away_from_the_moon() {
    let mut t = ObjectiveTracker::default();
    let moon_ctx = CelestialBodyContext {
        distance: MOON_RADIUS + 5_000_000_000,
        radius: MOON_RADIUS,
        position: v3(7_688_000_000_000, 0, 0),
        is_moon_central: true,
    };
    // Near the moon the timer resets.
    t.escape_stopwatch.tick(900_000);
    check_escape_moon_objective(&mut t, &moon_ctx, 100_000);
    assert_eq!(t.escape_stopwatch.elapsed_micros, 0);
    // Away from it, time accumulates until the requirement is met.
    let away = earth_context(EARTH_RADIUS + 50_000_000_000);
    check_escape_moon_objective(&mut t, &away, 600_000);
    assert!(!t.progress.is_completed);
    check_escape_moon_objective(&mut t, &away, 600_000);
    assert!(t.progress.is_completed);
    assert_eq!(t.progress.completed, vec![Objective::EscapeMoon]);
}

#[test]
fn landing_requires_closeness_to_earth() {
    let mut t = ObjectiveTracker {
        progress: ObjectiveProgress {
            current: Objective::LandOnEarth,
            completed: vec![Objective::EscapeMoon, Objective::OrbitEarth],
            is_completed: false,
            completion_time: None,
        },
        check_stopwatch: Stopwatch::new(),
        escape_stopwatch: Stopwatch::new(),
        leo_stopwatch: Stopwatch::new(),
    };
    // Too high: nothing happens.
    check_earth_landing_objective(&mut t, &earth_context(EARTH_RADIUS + 2_000_000_000));
    assert!(!t.progress.is_completed);
    // Within the landing tolerance of the surface: complete, recording the
    // distance.
    check_earth_landing_objective(&mut t, &earth_context(EARTH_RADIUS + 500_000_000));
    assert!(t.progress.is_completed);
    assert_eq!(
        t.progress.completion_time,
        Some((EARTH_RADIUS + 500_000_000) as u64)
    );
    assert!(t.progress.all_completed());
}

#[test]
fn objective_checks_are_throttled() {
    let mut t = ObjectiveTracker::default();
    let moons = vec![v3(1000, 0, 0)];
    // Craft sits on the moon: an unthrottled evaluation would reset the
    // guard timer; a throttled one leaves everything alone.
    t.escape_stopwatch.tick(500_000);
    objectives_system(&mut t, v3(1000, 0, 0), v3(0, 0, 0), &moons, 10_000);
    assert_eq!(t.check_stopwatch.elapsed_micros, 10_000);
    assert_eq!(t.escape_stopwatch.elapsed_micros, 500_000);
    // The next slice crosses the interval: the evaluation runs and the
    // cadence timer starts over.
    objectives_system(&mut t, v3(1000, 0, 0), v3(0, 0, 0), &moons, 10_000);
    assert_eq!(t.check_stopwatch.elapsed_micros, 0);
    assert_eq!(t.escape_stopwatch.elapsed_micros, 0);
    assert_eq!(t.leo_stopwatch.elapsed_micros, 0);
}

#[test]
fn nearest_body_wins_only_when_strictly_closer() {
    // A body exactly as far as Earth's centre does not displace Earth.
    let pos = v3(1_000_000_000, 0, 0);
    let moons = vec![v3(2_000_000_000, 0, 0)];
    let ctx = nearest_body_context(pos, &moons);
    assert!(!ctx.is_moon_central);
    assert_eq!(ctx.distance, 1_000_000_000);
    assert_eq!(ctx.radius, EARTH_RADIUS);
    // A strictly closer body becomes the reference, with the moon radius.
    let moons = vec![v3(1_500_000_000, 0, 0)];
    let ctx = nearest_body_context(pos, &moons);
    assert!(ctx.is_moon_central);
    assert_eq!(ctx.distance, 500_000_000);
    assert_eq!(ctx.radius, MOON_RADIUS);
    assert_eq!(ctx.position, v3(1_500_000_000, 0, 0));
}
