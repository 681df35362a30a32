use orbit_sim::config::Config;
use orbit_sim::constants::{EARTH_RADIUS, MAX_TRAIL_LENGTH, MOON_RADIUS};
use orbit_sim::num::{clamp_mag, div_away, div_trunc, isqrt};
use orbit_sim::physics_object::{Body, PhysicsObject};
use orbit_sim::propulsion::{propulsion_system, Propulsion};
use orbit_sim::timewarp::{max_allowed_stage, stage_settings, time_warp_system, WarpCommand};
use orbit_sim::trail::PastLocations;
use orbit_sim::ui::{fuel_level, user_readout, warp_availability, FuelLevel, WarpAvailability};
use orbit_sim::vec3::Vec3i;

fn v3(x: i64, y: i64, z: i64) -> Vec3i {
    Vec3i { x, y, z }
}

#[test]
fn integer_kernel_rounds_as_specified() {
    assert_eq!(div_trunc(7, 2), 3);
    assert_eq!(div_trunc(-7, 2), -3);
    assert_eq!(div_away(7, 2), 4);
    assert_eq!(div_away(-7, 2), -4);
    assert_eq!(div_away(6, 2), 3);
    assert_eq!(isqrt(0), 0);
    assert_eq!(isqrt(24), 4);
    assert_eq!(isqrt(25), 5);
    assert_eq!(isqrt(u64::MAX as u128), 4_294_967_295);
    assert_eq!(clamp_mag(5_000, 1_000), 1_000);
    assert_eq!(clamp_mag(-5_000, 1_000), -1_000);
    assert_eq!(clamp_mag(-37, 1_000), -37);
}

#[test]
fn propulsion_consumes_fuel_and_applies_thrust() {
    let mut prop = Propulsion::default();
    prop.thrust_permille = 1000;
    let mut phys = PhysicsObject::new(589, 8_000_000, v3(0, 0, 0), None);
    // Full thrust straight up for one second: one rate's worth of fuel is
    // burnt and the full engine force accumulates.
    propulsion_system(&mut prop, &mut phys, v3(0, 1_000_000, 0), 1_000_000);
    assert_eq!(prop.fuel, 999_000_000_000);
    assert_eq!(phys.applied_force, v3(0, 10_000_000, 0));
}

#[test]
fn propulsion_thrust_capped_by_remaining_fuel() {
    let mut prop = Propulsion::default();
    prop.thrust_permille = 1000;
    prop.fuel = 500_000_000;
    let mut phys = PhysicsObject::new(589, 8_000_000, v3(0, 0, 0), None);
    // Only half a second of full thrust remains: the level drops to half
    // and the tank runs exactly dry, never negative.
    propulsion_system(&mut prop, &mut phys, v3(0, 1_000_000, 0), 1_000_000);
    assert_eq!(prop.fuel, 0);
    assert_eq!(phys.applied_force, v3(0, 5_000_000, 0));
    // With the tank empty, further thrust does nothing at all.
    propulsion_system(&mut prop, &mut phys, v3(0, 1_000_000, 0), 1_000_000);
    assert_eq!(prop.fuel, 0);
    assert_eq!(phys.applied_force, v3(0, 5_000_000, 0));
}

#[test]
fn propulsion_idle_without_thrust_setting() {
    let mut prop = Propulsion::default();
    let mut phys = PhysicsObject::new(589, 8_000_000, v3(0, 0, 0), None);
    propulsion_system(&mut prop, &mut phys, v3(0, 1_000_000, 0), 1_000_000);
    assert_eq!(prop.fuel, 1_000_000_000_000);
    assert_eq!(phys.applied_force, v3(0, 0, 0));
}

#[test]
fn thrust_setting_steps_and_saturates() {
    let mut prop = Propulsion::default();
    prop.adjust_thrust(true);
    assert_eq!(prop.thrust_permille, 100);
    for _ in 0..15 {
        prop.adjust_thrust(true);
    }
    assert_eq!(prop.thrust_permille, 1000);
    for _ in 0..15 {
        prop.adjust_thrust(false);
    }
    assert_eq!(prop.thrust_permille, 0);
}

#[test]
fn time_warp_stage_table_values() {
    assert_eq!(stage_settings(0), (15_625, 64, 1));
    assert_eq!(stage_settings(3), (156_250, 640, 100));
    assert_eq!(stage_settings(8), (39_062_500, 6400, 250_000));
}

#[test]
fn time_warp_gated_by_altitude() {
    // High over both bodies: everything is allowed.
    assert_eq!(max_allowed_stage(200_000_000_000, 200_000_000_000), 8);
    // Below the limited-warp threshold over Earth: stage three at most.
    assert_eq!(max_allowed_stage(50_000_000_000, 200_000_000_000), 3);
    // Below the minimum safe altitude over the moon: no warp at all.
    assert_eq!(max_allowed_stage(200_000_000_000, 4_000_000_000), 0);

    let mut stage: u8 = 0;
    let mut config = Config::base();
    // Five speed-ups high above Earth: the fifth stage is reached and the
    // configuration takes its timestep and multiplier.
    let cmds = vec![WarpCommand::SpeedUp; 5];
    let hz = time_warp_system(
        &mut stage,
        &cmds,
        200_000_000_000,
        200_000_000_000,
        &mut config,
    );
    assert_eq!(stage, 5);
    assert_eq!(hz, Some(1280));
    assert_eq!(config.dt_micros, 1_953_125);
    assert_eq!(config.time_multiplier, 2500);
    // The same request close to Earth stops at the limited stage.
    let mut low_stage: u8 = 0;
    let mut low_config = Config::base();
    time_warp_system(
        &mut low_stage,
        &cmds,
        50_000_000_000,
        200_000_000_000,
        &mut low_config,
    );
    assert_eq!(low_stage, 3);
}

#[test]
fn time_warp_forced_down_when_too_low() {
    // A high stage is forced back down once the altitude drops, even
    // without any command.
    let mut stage: u8 = 7;
    let mut config = Config::base();
    let hz = time_warp_system(&mut stage, &vec![], 20_000_000_000, 200_000_000_000, &mut config);
    assert_eq!(stage, 0);
    assert_eq!(hz, Some(64));
    assert_eq!(config.dt_micros, 15_625);
    // Nothing changes when the stage is already allowed.
    let mut steady: u8 = 2;
    let mut steady_config = Config::base();
    let hz = time_warp_system(
        &mut steady,
        &vec![],
        200_000_000_000,
        200_000_000_000,
        &mut steady_config,
    );
    assert_eq!(steady, 2);
    assert_eq!(hz, None);
    assert_eq!(steady_config.dt_micros, 15_625);
}

#[test]
fn trail_keeps_only_the_most_recent_points() {
    let mut trail = PastLocations::new();
    assert!(trail.points.is_empty());
    let n = MAX_TRAIL_LENGTH as i64;
    for i in 0..n + 2 {
        trail.add_point(v3(i, 0, 0));
    }
    assert_eq!(trail.points.len(), MAX_TRAIL_LENGTH);
    assert_eq!(trail.points[0], v3(2, 0, 0));
    assert_eq!(trail.points[MAX_TRAIL_LENGTH - 1], v3(n + 1, 0, 0));
}

#[test]
fn fuel_bands_match_the_thresholds() {
    assert!(matches!(fuel_level(0, 1000), FuelLevel::Empty));
    assert!(matches!(fuel_level(100, 1000), FuelLevel::Critical));
    assert!(matches!(fuel_level(101, 1000), FuelLevel::Low));
    assert!(matches!(fuel_level(250, 1000), FuelLevel::Low));
    assert!(matches!(fuel_level(251, 1000), FuelLevel::Sufficient));
}

#[test]
fn warp_bands_match_the_thresholds() {
    assert!(matches!(
        warp_availability(4_999_999_999, true),
        WarpAvailability::Blocked
    ));
    assert!(matches!(
        warp_availability(5_000_000_000, true),
        WarpAvailability::Limited
    ));
    assert!(matches!(
        warp_availability(30_000_000_000, true),
        WarpAvailability::Full
    ));
    assert!(matches!(
        warp_availability(29_999_999_999, false),
        WarpAvailability::Blocked
    ));
    assert!(matches!(
        warp_availability(99_999_999_999, false),
        WarpAvailability::Limited
    ));
    assert!(matches!(
        warp_availability(100_000_000_000, false),
        WarpAvailability::Full
    ));
}

#[test]
fn readout_reports_the_nearest_body() {
    let moon_pos = v3(7_688_000_000_000, 0, 0);
    let bodies = vec![
        Body {
            pos: v3(0, 0, 0),
            phys: PhysicsObject::new(746_500_000_000_000_000, EARTH_RADIUS, v3(0, 0, 0), None),
            is_user: false,
        },
        Body {
            pos: moon_pos,
            phys: PhysicsObject::new(
                9_177_500_000_000_000,
                MOON_RADIUS,
                v3(0, 150_000_000, 0),
                None,
            ),
            is_user: false,
        },
    ];
    // Near the moon: altitude over its surface, speed relative to it.
    let pos = v3(7_688_000_000_000 - MOON_RADIUS - 10_000_000_000, 0, 0);
    let r = user_readout(pos, v3(0, 150_000_000, 0), &bodies);
    assert!(r.is_moon_central);
    assert_eq!(r.altitude, 10_000_000_000);
    assert_eq!(r.relative_speed, 0);
    assert!(matches!(r.warp, WarpAvailability::Limited));
    // Back near Earth: Earth is the reference and its own speed counts.
    let r = user_readout(v3(EARTH_RADIUS + 200_000_000_000, 0, 0), v3(0, 250_000_000, 0), &bodies);
    assert!(!r.is_moon_central);
    assert_eq!(r.altitude, 200_000_000_000);
    assert_eq!(r.relative_speed, 250_000_000);
    assert!(matches!(r.warp, WarpAvailability::Full));
}

#[test]
fn component_defaults_are_the_documented_ones() {
    let p = PhysicsObject::default();
    assert_eq!(p.mass, 1);
    assert_eq!(p.radius, 1);
    assert_eq!(p.vel, v3(0, 0, 0));
    assert_eq!(p.applied_force, v3(0, 0, 0));
    assert_eq!(p.central_body, None);
    let prop = Propulsion::default();
    assert_eq!(prop.max_thrust, 10_000_000);
    assert_eq!(prop.thrust_permille, 0);
    assert_eq!(prop.fuel, 1_000_000_000_000);
    assert_eq!(prop.max_fuel, 1_000_000_000_000);
    assert_eq!(prop.fuel_consumption_rate, 1_000_000_000);
    let c = Config::base();
    assert_eq!(c.dt_micros, 15_625);
    assert_eq!(c.time_multiplier, 1);
}
