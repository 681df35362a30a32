//! Spacecraft propulsion: thrust setting, fuel accounting, and the force the
//! engine adds each tick. Fuel only decreases under thrust and never goes
//! negative; the thrust actually applied is capped by the fuel that remains.

use vstd::prelude::*;

use crate::constants::{
    DT_LIMIT, FORCE_LIMIT, FUEL_LIMIT, RATE_LIMIT, THRUST_ADJUSTMENT_STEP, THRUST_LIMIT, VEL_LIMIT,
};
use crate::num::{clamp_mag, clamp_spec, div_trunc, lemma_tdiv_bound, lemma_tdiv_mul_bound, tdiv};
use crate::physics_object::PhysicsObject;
use crate::vec3::Vec3i;

verus! {

/// Spacecraft propulsion state.
#[derive(Clone, Copy, Debug)]
pub struct Propulsion {
    /// Maximum thrust force in micro-newtons.
    pub max_thrust: i64,
    /// Current user-set thrust level in permille of full thrust.
    pub thrust_permille: i64,
    /// Current fuel in micrograms.
    pub fuel: i64,
    /// Fuel capacity in micrograms.
    pub max_fuel: i64,
    /// Fuel consumed per second at full thrust, micrograms.
    pub fuel_consumption_rate: i64,
}

impl Propulsion {
    /// The propulsion fields are within admissible ranges.
    pub open spec fn wf(self) -> bool {
        &&& 0 <= self.thrust_permille <= 1000
        &&& 0 <= self.fuel <= self.max_fuel
        &&& self.max_fuel <= FUEL_LIMIT
        &&& 0 < self.fuel_consumption_rate <= RATE_LIMIT
        &&& 0 <= self.max_thrust <= THRUST_LIMIT
    }

    /// Raises or lowers the thrust setting by one step, held inside [0, 1].
    pub fn adjust_thrust(&mut self, increase: bool)
        requires
            old(self).wf(),
        ensures
            final(self).wf(),
            increase ==> final(self).thrust_permille == clamp_spec(
                old(self).thrust_permille + THRUST_ADJUSTMENT_STEP,
                0,
                1000,
            ),
            !increase ==> final(self).thrust_permille == clamp_spec(
                old(self).thrust_permille - THRUST_ADJUSTMENT_STEP,
                0,
                1000,
            ),
            final(self).max_thrust == old(self).max_thrust,
            final(self).fuel == old(self).fuel,
            final(self).max_fuel == old(self).max_fuel,
            final(self).fuel_consumption_rate == old(self).fuel_consumption_rate,
    {
        if increase {
            if self.thrust_permille > 1000 - THRUST_ADJUSTMENT_STEP {
                self.thrust_permille = 1000;
            } else {
                self.thrust_permille = self.thrust_permille + THRUST_ADJUSTMENT_STEP;
            }
        } else {
            if self.thrust_permille < THRUST_ADJUSTMENT_STEP {
                self.thrust_permille = 0;
            } else {
                self.thrust_permille = self.thrust_permille - THRUST_ADJUSTMENT_STEP;
            }
        }
    }
}

impl Default for Propulsion {
    /// A small craft engine: 10 N of thrust, 1000 kg of fuel, burning 1 kg/s
    /// at full thrust.
    fn default() -> (r: Propulsion)
        ensures
            r.max_thrust == 10_000_000,
            r.thrust_permille == 0,
            r.fuel == 1_000_000_000_000,
            r.max_fuel == 1_000_000_000_000,
            r.fuel_consumption_rate == 1_000_000_000,
            r.wf(),
    {
        Propulsion {
            max_thrust: 10_000_000,
            thrust_permille: 0,
            fuel: 1_000_000_000_000,
            max_fuel: 1_000_000_000_000,
            fuel_consumption_rate: 1_000_000_000,
        }
    }
}

/// The thrust level the engine can actually hold for this tick: the set
/// level, or, when the fuel would run out within the tick, the level the
/// remaining fuel pays for.
pub open spec fn actual_thrust_permille(p: Propulsion, dt: int) -> int {
    let needed = tdiv(p.fuel_consumption_rate * p.thrust_permille * dt, 1_000_000_000);
    if needed > p.fuel {
        tdiv(p.fuel * 1_000_000_000, p.fuel_consumption_rate * dt)
    } else {
        p.thrust_permille as int
    }
}

/// The fuel consumed at that level over the tick.
pub open spec fn fuel_consumed(p: Propulsion, dt: int) -> int {
    tdiv(p.fuel_consumption_rate * actual_thrust_permille(p, dt) * dt, 1_000_000_000)
}

/// One axis of the engine force: `max_thrust * level * dir / 1e9`, where
/// `dir` is the thrust direction scaled to a million.
pub open spec fn thrust_force_comp(max_thrust: i64, level: int, dir: i64) -> int {
    tdiv(max_thrust * level * dir, 1_000_000_000)
}

/// Consumes fuel for one tick of thrust along `direction` (a unit vector
/// scaled to a million) and adds the engine force to the body's
/// accumulator. With no thrust set or no fuel left, nothing changes.
pub fn propulsion_system(
    propulsion: &mut Propulsion,
    phys: &mut PhysicsObject,
    direction: Vec3i,
    dt_micros: u64,
)
    requires
        old(propulsion).wf(),
        old(phys).wf(),
        direction.in_mag(1_000_000),
        1 <= dt_micros <= DT_LIMIT,
    ensures
        final(propulsion).wf(),
        final(phys).wf(),
        final(propulsion).max_thrust == old(propulsion).max_thrust,
        final(propulsion).thrust_permille == old(propulsion).thrust_permille,
        final(propulsion).max_fuel == old(propulsion).max_fuel,
        final(propulsion).fuel_consumption_rate == old(propulsion).fuel_consumption_rate,
        final(phys).vel == old(phys).vel,
        final(phys).mass == old(phys).mass,
        final(phys).radius == old(phys).radius,
        final(phys).central_body == old(phys).central_body,
        old(propulsion).thrust_permille == 0 || old(propulsion).fuel <= 0 ==> *final(propulsion)
            == *old(propulsion) && *final(phys) == *old(phys),
        old(propulsion).thrust_permille > 0 && old(propulsion).fuel > 0 ==> {
            let level = actual_thrust_permille(*old(propulsion), dt_micros as int);
            let used = fuel_consumed(*old(propulsion), dt_micros as int);
            &&& 0 <= level <= old(propulsion).thrust_permille
            &&& 0 <= used <= old(propulsion).fuel
            &&& final(propulsion).fuel == old(propulsion).fuel - used
            &&& final(phys).applied_force == (Vec3i {
                x: clamp_spec(
                    old(phys).applied_force.x + thrust_force_comp(
                        old(propulsion).max_thrust,
                        level,
                        direction.x,
                    ),
                    -(FORCE_LIMIT as int),
                    FORCE_LIMIT as int,
                ) as i64,
                y: clamp_spec(
                    old(phys).applied_force.y + thrust_force_comp(
                        old(propulsion).max_thrust,
                        level,
                        direction.y,
                    ),
                    -(FORCE_LIMIT as int),
                    FORCE_LIMIT as int,
                ) as i64,
                z: clamp_spec(
                    old(phys).applied_force.z + thrust_force_comp(
                        old(propulsion).max_thrust,
                        level,
                        direction.z,
                    ),
                    -(FORCE_LIMIT as int),
                    FORCE_LIMIT as int,
                ) as i64,
            })
        },
        final(propulsion).fuel >= 0,
        final(propulsion).fuel <= old(propulsion).fuel,
{
    if propulsion.thrust_permille == 0 {
        return ;
    }
    if propulsion.fuel <= 0 {
        return ;
    }
    let dt128 = dt_micros as i128;
    let rate = propulsion.fuel_consumption_rate as i128;
    let pct = propulsion.thrust_permille as i128;
    let fuel = propulsion.fuel as i128;
    proof {
        assert(0 < rate * pct <= 1_000_000_000_000_000_000int && 0 < rate * pct * dt128
            <= 4_000_000_000_000_000_000_000_000_000int && 1 <= rate * dt128
            <= 4_000_000_000_000_000_000_000_000int && rate * pct * dt128 <= 1000 * (rate
            * dt128)) by (nonlinear_arith)
            requires
                1 <= rate <= 1_000_000_000_000_000i128,
                1 <= pct <= 1000,
                1 <= dt128 <= 4_000_000_000,
        ;
        lemma_tdiv_bound(
            (rate * pct * dt128) as int,
            1_000_000_000int,
            4_000_000_000_000_000_000_000_000_000int,
        );
        assert(0 <= fuel * 1_000_000_000 <= 1_000_000_000_000_000_000_000_000_000int)
            by (nonlinear_arith)
            requires
                0 <= fuel <= 1_000_000_000_000_000_000i128,
        ;
    }
    let needed = div_trunc(rate * pct * dt128, 1_000_000_000);
    let mut level: i128 = pct;
    if needed > fuel {
        proof {
            lemma_tdiv_mul_bound((rate * pct * dt128) as int, 1_000_000_000int);
            assert((fuel + 1) * 1_000_000_000 <= rate * pct * dt128) by (nonlinear_arith)
                requires
                    tdiv((rate * pct * dt128) as int, 1_000_000_000int) >= fuel + 1,
                    tdiv((rate * pct * dt128) as int, 1_000_000_000int) * 1_000_000_000 <= rate
                        * pct * dt128,
                    rate * pct * dt128 >= 0,
            ;
            assert(fuel * 1_000_000_000 < pct * (rate * dt128)) by (nonlinear_arith)
                requires
                    (fuel + 1) * 1_000_000_000 <= rate * pct * dt128,
            ;
            lemma_tdiv_bound((fuel * 1_000_000_000) as int, (rate * dt128) as int, pct as int);
        }
        level = div_trunc(fuel * 1_000_000_000, rate * dt128);
    }
    proof {
        assert(0 <= rate * level <= 1_000_000_000_000_000_000int && 0 <= rate * level * dt128
            <= 4_000_000_000_000_000_000_000_000_000int) by (nonlinear_arith)
            requires
                1 <= rate <= 1_000_000_000_000_000i128,
                0 <= level <= 1000,
                1 <= dt128 <= 4_000_000_000,
        ;
        lemma_tdiv_bound(
            (rate * level * dt128) as int,
            1_000_000_000int,
            4_000_000_000_000_000_000_000_000_000int,
        );
        if needed > fuel {
            lemma_tdiv_mul_bound((fuel * 1_000_000_000) as int, (rate * dt128) as int);
            assert(rate * level * dt128 <= fuel * 1_000_000_000) by (nonlinear_arith)
                requires
                    level * (rate * dt128) <= fuel * 1_000_000_000,
                    level == tdiv((fuel * 1_000_000_000) as int, (rate * dt128) as int),
                    tdiv((fuel * 1_000_000_000) as int, (rate * dt128) as int) * ((rate
                        * dt128) as int) <= fuel * 1_000_000_000,
            ;
            lemma_tdiv_bound((rate * level * dt128) as int, 1_000_000_000int, fuel as int);
        }
    }
    let used = div_trunc(rate * level * dt128, 1_000_000_000);
    propulsion.fuel = propulsion.fuel - (used as i64);
    let mt = propulsion.max_thrust as i128;
    proof {
        assert(0 <= mt * level <= 1_000_000_000_000_000_000int && -1_000_000_000_000_000_000_000_000int
            <= mt * level * (direction.x as int) <= 1_000_000_000_000_000_000_000_000int
            && -1_000_000_000_000_000_000_000_000int <= mt * level * (direction.y as int)
            <= 1_000_000_000_000_000_000_000_000int && -1_000_000_000_000_000_000_000_000int <= mt
            * level * (direction.z as int) <= 1_000_000_000_000_000_000_000_000int)
            by (nonlinear_arith)
            requires
                0 <= mt <= 1_000_000_000_000_000i128,
                0 <= level <= 1000,
                -1_000_000 <= direction.x <= 1_000_000,
                -1_000_000 <= direction.y <= 1_000_000,
                -1_000_000 <= direction.z <= 1_000_000,
        ;
        lemma_tdiv_bound(
            (mt * level * (direction.x as i128)) as int,
            1_000_000_000int,
            1_000_000_000_000_000int,
        );
        lemma_tdiv_bound(
            (mt * level * (direction.y as i128)) as int,
            1_000_000_000int,
            1_000_000_000_000_000int,
        );
        lemma_tdiv_bound(
            (mt * level * (direction.z as i128)) as int,
            1_000_000_000int,
            1_000_000_000_000_000int,
        );
    }
    phys.applied_force = Vec3i {
        x: clamp_mag(
            (phys.applied_force.x as i128) + div_trunc(
                mt * level * (direction.x as i128),
                1_000_000_000,
            ),
            FORCE_LIMIT,
        ),
        y: clamp_mag(
            (phys.applied_force.y as i128) + div_trunc(
                mt * level * (direction.y as i128),
                1_000_000_000,
            ),
            FORCE_LIMIT,
        ),
        z: clamp_mag(
            (phys.applied_force.z as i128) + div_trunc(
                mt * level * (direction.z as i128),
                1_000_000_000,
            ),
            FORCE_LIMIT,
        ),
    };
}

} // verus!
