//! Per-body physical state, and the arena record a simulated world is made
//! of. Bodies are addressed by their index in the world's vector; the
//! central-body link is an index validated against the body's own.

use vstd::prelude::*;

use crate::constants::{FORCE_LIMIT, MASS_LIMIT, POS_LIMIT, RADIUS_LIMIT, VEL_LIMIT};
use crate::vec3::Vec3i;

verus! {

/// Physics simulation data for one celestial body or spacecraft.
#[derive(Clone, Copy, Debug)]
pub struct PhysicsObject {
    /// Current velocity, micro-units per second.
    pub vel: Vec3i,
    /// Mass in tonnes.
    pub mass: i64,
    /// Physical radius in micro-units (used for collision detection).
    pub radius: i64,
    /// Forces accumulated this tick, micro-newtons; reset when consumed.
    pub applied_force: Vec3i,
    /// Index of the dominant attractor, recomputed every tick.
    pub central_body: Option<usize>,
}

impl PhysicsObject {
    /// The physical fields are within the simulation's admissible ranges.
    pub open spec fn wf(self) -> bool {
        &&& self.vel.in_mag(VEL_LIMIT as int)
        &&& 0 < self.mass <= MASS_LIMIT
        &&& 0 <= self.radius <= RADIUS_LIMIT
        &&& self.applied_force.in_mag(FORCE_LIMIT as int)
    }

    /// A fresh object with no accumulated force.
    pub fn new(mass: i64, radius: i64, vel: Vec3i, central_body: Option<usize>) -> (r:
        PhysicsObject)
        ensures
            r.mass == mass,
            r.radius == radius,
            r.vel == vel,
            r.central_body == central_body,
            r.applied_force == (Vec3i { x: 0, y: 0, z: 0 }),
    {
        PhysicsObject { vel, mass, radius, applied_force: Vec3i { x: 0, y: 0, z: 0 }, central_body }
    }
}

impl Default for PhysicsObject {
    /// A unit point mass at rest with no attractor.
    fn default() -> (r: PhysicsObject)
        ensures
            r.mass == 1,
            r.radius == 1,
            r.vel == (Vec3i { x: 0, y: 0, z: 0 }),
            r.central_body == None::<usize>,
            r.applied_force == (Vec3i { x: 0, y: 0, z: 0 }),
    {
        PhysicsObject::new(1, 1, Vec3i { x: 0, y: 0, z: 0 }, None)
    }
}

/// One record of the world arena: where the body is, its physical state,
/// and whether it is the player craft, which feels gravity but exerts none.
#[derive(Clone, Copy, Debug)]
pub struct Body {
    /// World position, micro-units.
    pub pos: Vec3i,
    /// Physical state.
    pub phys: PhysicsObject,
    /// The non-gravitating player craft flag.
    pub is_user: bool,
}

impl Body {
    /// Position and physical fields are within admissible ranges.
    pub open spec fn wf(self) -> bool {
        &&& self.pos.in_mag(POS_LIMIT as int)
        &&& self.phys.wf()
    }
}

/// All bodies of a world are well-formed.
pub open spec fn all_wf(s: Seq<Body>) -> bool {
    forall|i: int| 0 <= i < s.len() ==> #[trigger] s[i].wf()
}

/// Every central-body link points at another existing body, never at the
/// body itself.
pub open spec fn centrals_ok(s: Seq<Body>) -> bool {
    forall|i: int|
        0 <= i < s.len() ==> match #[trigger] s[i].phys.central_body {
            Some(c) => c < s.len() && c != i,
            None => true,
        }
}

} // verus!
