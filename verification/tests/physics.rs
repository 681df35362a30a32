use orbit_sim::apply_force::apply_force_system;
use orbit_sim::collision::{check_continuous_collision, collision_system, resolve_pair};
use orbit_sim::config::Config;
use orbit_sim::constants::EARTH_RADIUS;
use orbit_sim::gravity::{
    calculate_gravity_accel, calculate_gravity_accel_with_central_body, gravity_system,
};
use orbit_sim::physics_object::{Body, PhysicsObject};
use orbit_sim::vec3::Vec3i;

fn v3(x: i64, y: i64, z: i64) -> Vec3i {
    Vec3i { x, y, z }
}

fn body(pos: Vec3i, vel: Vec3i, mass: i64, radius: i64, is_user: bool) -> Body {
    Body {
        pos,
        phys: PhysicsObject::new(mass, radius, vel, None),
        is_user,
    }
}

const EARTH_MASS: i64 = 746_500_000_000_000_000;
const MOON_MASS: i64 = 9_177_500_000_000_000;

fn dist_sq_of(a: Vec3i, b: Vec3i) -> i128 {
    let dx = (a.x - b.x) as i128;
    let dy = (a.y - b.y) as i128;
    let dz = (a.z - b.z) as i128;
    dx * dx + dy * dy + dz * dz
}

#[test]
fn single_source_acceleration_exact_value() {
    // An Earth-mass source at the origin, a light craft at orbital distance:
    // the per-axis acceleration has one exactly specified fixed-point value.
    let bodies = vec![
        body(v3(0, 0, 0), v3(0, 0, 0), EARTH_MASS, EARTH_RADIUS, false),
        body(v3(618_550_000_000, 0, 0), v3(0, 0, 0), 589, 8_000_000, true),
    ];
    let a = calculate_gravity_accel(&bodies, 1);
    assert_eq!(a, v3(-130_222, 0, 0));
}

#[test]
fn central_body_is_dominant_attractor() {
    // Craft close to the moon: the moon's pull beats distant Earth's.
    let bodies = vec![
        body(v3(0, 0, 0), v3(0, 0, 0), EARTH_MASS, EARTH_RADIUS, false),
        body(v3(7_688_000_000_000, 0, 0), v3(0, 0, 0), MOON_MASS, 86_855_000_000, false),
        body(v3(7_588_000_000_000, 0, 0), v3(0, 0, 0), 589, 8_000_000, true),
    ];
    let (_, central_craft) = calculate_gravity_accel_with_central_body(&bodies, 2);
    assert_eq!(central_craft, Some(1));
    // Earth's only source is the moon (the craft is non-gravitating).
    let (_, central_earth) = calculate_gravity_accel_with_central_body(&bodies, 0);
    assert_eq!(central_earth, Some(1));
    // The moon's dominant attractor is Earth, never the moon itself.
    let (_, central_moon) = calculate_gravity_accel_with_central_body(&bodies, 1);
    assert_eq!(central_moon, Some(0));
}

#[test]
fn non_gravitating_craft_exerts_no_pull() {
    let without_craft = vec![
        body(v3(0, 0, 0), v3(0, 0, 0), EARTH_MASS, EARTH_RADIUS, false),
        body(v3(7_688_000_000_000, 0, 0), v3(0, 0, 0), MOON_MASS, 86_855_000_000, false),
    ];
    let mut with_craft = without_craft.clone();
    // A heavy craft right next to Earth, flagged non-gravitating.
    with_craft.push(body(
        v3(400_000_000_000, 0, 0),
        v3(0, 0, 0),
        EARTH_MASS,
        8_000_000,
        true,
    ));
    assert_eq!(
        calculate_gravity_accel(&without_craft, 0),
        calculate_gravity_accel(&with_craft, 0)
    );
}

#[test]
fn gravity_system_assigns_centrals_and_moves_bodies() {
    let mut bodies = vec![
        body(v3(0, 0, 0), v3(0, 0, 0), EARTH_MASS, EARTH_RADIUS, false),
        body(
            v3(618_550_000_000, 0, 0),
            v3(0, 283_811_744, 0),
            589,
            8_000_000,
            true,
        ),
    ];
    let config = Config {
        dt_micros: 1_000_000,
        time_multiplier: 1,
    };
    gravity_system(&mut bodies, &config);
    assert_eq!(bodies[1].phys.central_body, Some(0));
    // Earth has no gravitating companion, so it has no central body.
    assert_eq!(bodies[0].phys.central_body, None);
    // The craft moved by roughly one second of its tangential velocity.
    assert_eq!(bodies[1].pos.y, 283_811_744);
    // The craft fell slightly inward while Earth stayed put.
    assert!(bodies[1].pos.x < 618_550_000_000);
    assert_eq!(bodies[0].pos, v3(0, 0, 0));
}

#[test]
fn symmetric_collision_conserves_momentum_exactly() {
    // Equal masses with equal and opposite approach velocities along the
    // line of centres: momentum stays exactly zero and the approach speed
    // is reversed and scaled by the restitution (0.1).
    let a = body(v3(-7_500_000, 0, 0), v3(100_000_000, 0, 0), 1000, 10_000_000, false);
    let b = body(v3(7_500_000, 0, 0), v3(-100_000_000, 0, 0), 1000, 10_000_000, false);
    let (na, nb) = resolve_pair(a, b, 1_000_000);
    assert_eq!(na.phys.vel, v3(-10_000_000, 0, 0));
    assert_eq!(nb.phys.vel, v3(10_000_000, 0, 0));
    let momentum_before =
        1000i128 * (a.phys.vel.x as i128) + 1000i128 * (b.phys.vel.x as i128);
    let momentum_after =
        1000i128 * (na.phys.vel.x as i128) + 1000i128 * (nb.phys.vel.x as i128);
    assert_eq!(momentum_before, 0);
    assert_eq!(momentum_after, 0);
    // The relative approach speed of 200 m/s leaves as 20 m/s.
    assert_eq!(nb.phys.vel.x - na.phys.vel.x, 20_000_000);
    // The overlap was fully resolved: centres at least the combined radius
    // apart.
    assert_eq!(na.pos, v3(-10_000_000, 0, 0));
    assert_eq!(nb.pos, v3(10_000_000, 0, 0));
}

#[test]
fn separation_restores_combined_radius() {
    // A diagonal overlap with no approach velocity: only positions change,
    // and the centres end at least the combined radius apart.
    let a = body(v3(3_000_000, 4_000_000, 0), v3(0, 0, 0), 500, 5_000_000, false);
    let b = body(v3(0, 0, 0), v3(0, 0, 0), 2000, 5_000_000, false);
    let (na, nb) = resolve_pair(a, b, 1_000_000);
    let min_d: i128 = 10_000_000;
    assert!(dist_sq_of(na.pos, nb.pos) >= min_d * min_d);
    // No impulse was applied: the pair was not approaching.
    assert_eq!(na.phys.vel, v3(0, 0, 0));
    assert_eq!(nb.phys.vel, v3(0, 0, 0));
}

#[test]
fn collision_system_resolves_every_overlapping_pair() {
    let mut bodies = vec![
        body(v3(0, 0, 0), v3(0, 0, 0), 1000, 8_000_000, false),
        body(v3(9_000_000, 0, 0), v3(0, 0, 0), 1000, 8_000_000, false),
        body(v3(900_000_000, 0, 0), v3(0, 0, 0), 1000, 8_000_000, false),
    ];
    let config = Config {
        dt_micros: 1_000_000,
        time_multiplier: 1,
    };
    collision_system(&mut bodies, &config);
    let min_d: i128 = 16_000_000;
    assert!(dist_sq_of(bodies[0].pos, bodies[1].pos) >= min_d * min_d);
    // The distant body was never touched.
    assert_eq!(bodies[2].pos, v3(900_000_000, 0, 0));
}

#[test]
fn swept_test_catches_tunnelling() {
    // A fast mover passes straight through a large body within one step:
    // endpoint distances are large but the swept test reports the hit.
    let prev_a = v3(-2_000_000_000, 0, 0);
    let pos_a = v3(2_000_000_000, 0, 0);
    let origin = v3(0, 0, 0);
    assert!(check_continuous_collision(
        prev_a,
        pos_a,
        origin,
        origin,
        101_000_000
    ));
    // The same motion shifted far sideways misses.
    let prev_b = v3(-2_000_000_000, 500_000_000, 0);
    let pos_b = v3(2_000_000_000, 500_000_000, 0);
    assert!(!check_continuous_collision(
        prev_b,
        pos_b,
        origin,
        origin,
        101_000_000
    ));
}

#[test]
fn applied_force_changes_velocity_and_resets() {
    let mut bodies = vec![Body {
        pos: v3(0, 0, 0),
        phys: PhysicsObject {
            vel: v3(500, 0, 0),
            mass: 1000,
            radius: 1,
            applied_force: v3(1_000_000_000, -2_000_000_000, 0),
            central_body: None,
        },
        is_user: true,
    }];
    let config = Config {
        dt_micros: 1_000_000,
        time_multiplier: 1,
    };
    apply_force_system(&mut bodies, &config);
    // dv = force * dt / (mass * 1e9): 1e9 uN over 1 s on 1000 t is 1000
    // micro-units/s.
    assert_eq!(bodies[0].phys.vel, v3(1500, -2000, 0));
    assert_eq!(bodies[0].phys.applied_force, v3(0, 0, 0));
}
