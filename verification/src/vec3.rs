//! Integer 3-vectors. The simulation is planar (z stays fixed) but all
//! arithmetic treats the three components uniformly, as the motion rules do.

use vstd::prelude::*;

verus! {

/// A 3-vector of fixed-point coordinates.
#[derive(Clone, Copy, Debug, PartialEq, Eq, Structural)]
pub struct Vec3i {
    pub x: i64,
    pub y: i64,
    pub z: i64,
}

/// Squared Euclidean norm, exact over the integers.
pub open spec fn norm_sq(v: Vec3i) -> int {
    (v.x as int) * (v.x as int) + (v.y as int) * (v.y as int) + (v.z as int) * (v.z as int)
}

/// Squared Euclidean norm of the difference `a - b`.
pub open spec fn dist_sq(a: Vec3i, b: Vec3i) -> int {
    (a.x - b.x) * (a.x - b.x) + (a.y - b.y) * (a.y - b.y) + (a.z - b.z) * (a.z - b.z)
}

/// Dot product, exact over the integers.
pub open spec fn dot(a: Vec3i, b: Vec3i) -> int {
    (a.x as int) * (b.x as int) + (a.y as int) * (b.y as int) + (a.z as int) * (b.z as int)
}

impl Vec3i {
    /// Every component within `[-lim, lim]`.
    pub open spec fn in_mag(self, lim: int) -> bool {
        &&& -lim <= self.x <= lim
        &&& -lim <= self.y <= lim
        &&& -lim <= self.z <= lim
    }

    /// The zero vector.
    pub fn zero() -> (r: Vec3i)
        ensures
            r == (Vec3i { x: 0, y: 0, z: 0 }),
    {
        Vec3i { x: 0, y: 0, z: 0 }
    }

    /// Construct from components.
    pub fn new(x: i64, y: i64, z: i64) -> (r: Vec3i)
        ensures
            r == (Vec3i { x, y, z }),
    {
        Vec3i { x, y, z }
    }
}

/// The squared norm of a vector with components bounded by `lim` is at most
/// `3 * lim * lim`, and is nonnegative.
pub proof fn lemma_norm_sq_bound(v: Vec3i, lim: int)
    by (nonlinear_arith)
    requires
        lim >= 0,
        v.in_mag(lim),
    ensures
        0 <= norm_sq(v) <= 3 * lim * lim,
{
}

/// Each squared component is bounded by the squared norm.
pub proof fn lemma_component_sq_le_norm_sq(v: Vec3i)
    by (nonlinear_arith)
    ensures
        0 <= (v.x as int) * (v.x as int) <= norm_sq(v),
        0 <= (v.y as int) * (v.y as int) <= norm_sq(v),
        0 <= (v.z as int) * (v.z as int) <= norm_sq(v),
{
}

/// The dot product of vectors bounded by `la` and `lb` is within
/// `3 * la * lb` in magnitude.
pub proof fn lemma_dot_bound(a: Vec3i, b: Vec3i, la: int, lb: int)
    by (nonlinear_arith)
    requires
        la >= 0,
        lb >= 0,
        a.in_mag(la),
        b.in_mag(lb),
    ensures
        -(3 * la * lb) <= dot(a, b) <= 3 * la * lb,
{
}

/// Squared distance computed in wide arithmetic.
///
/// The bound `lim` keeps every intermediate product inside `i128`.
pub fn dist_sq_i128(a: Vec3i, b: Vec3i, lim: i64) -> (r: i128)
    requires
        0 <= lim <= 2_000_000_000_000_000_000i64,
        a.in_mag(lim as int),
        b.in_mag(lim as int),
    ensures
        r == dist_sq(a, b),
        0 <= r <= 3 * (2 * lim as int) * (2 * lim as int),
{
    let dx: i128 = a.x as i128 - b.x as i128;
    let dy: i128 = a.y as i128 - b.y as i128;
    let dz: i128 = a.z as i128 - b.z as i128;
    proof {
        let d = Vec3i { x: (a.x - b.x) as i64, y: (a.y - b.y) as i64, z: (a.z - b.z) as i64 };
        lemma_norm_sq_bound(d, 2 * lim as int);
        lemma_component_sq_le_norm_sq(d);
        assert(dx == d.x as int && dy == d.y as int && dz == d.z as int);
        assert(norm_sq(d) == dist_sq(a, b));
        assert(dx * dx == (d.x as int) * (d.x as int));
        assert(dy * dy == (d.y as int) * (d.y as int));
        assert(dz * dz == (d.z as int) * (d.z as int));
        assert(dx * dx + dy * dy + dz * dz == dist_sq(a, b));
        assert(dx * dx <= 0x10000000000000000000000000000000int && dy * dy
            <= 0x10000000000000000000000000000000int && dz * dz
            <= 0x10000000000000000000000000000000int) by (nonlinear_arith)
            requires
                -4_000_000_000_000_000_000 <= dx <= 4_000_000_000_000_000_000,
                -4_000_000_000_000_000_000 <= dy <= 4_000_000_000_000_000_000,
                -4_000_000_000_000_000_000 <= dz <= 4_000_000_000_000_000_000,
        ;
    }
    dx * dx + dy * dy + dz * dz
}

/// Squared norm computed in wide arithmetic.
pub fn norm_sq_i128(v: Vec3i, lim: i64) -> (r: i128)
    requires
        0 <= lim <= 2_000_000_000_000_000_000i64,
        v.in_mag(lim as int),
    ensures
        r == norm_sq(v),
        0 <= r <= 3 * (2 * lim as int) * (2 * lim as int),
{
    let r = dist_sq_i128(v, Vec3i { x: 0, y: 0, z: 0 }, lim);
    proof {
        assert(dist_sq(v, Vec3i { x: 0, y: 0, z: 0 }) == norm_sq(v));
    }
    r
}

/// Dot product computed in wide arithmetic.
///
/// The product of the two magnitude bounds keeps every term inside `i128`.
pub fn dot_i128(a: Vec3i, b: Vec3i, la: i64, lb: i64) -> (r: i128)
    requires
        0 <= la,
        0 <= lb,
        (la as int) * (lb as int) <= 1_000_000_000_000_000_000_000_000_000_000_000_000int,
        a.in_mag(la as int),
        b.in_mag(lb as int),
    ensures
        r == dot(a, b),
        -(3 * (la as int) * (lb as int)) <= r <= 3 * (la as int) * (lb as int),
{
    proof {
        lemma_dot_bound(a, b, la as int, lb as int);
        assert((a.x as int) * (b.x as int) <= (la as int) * (lb as int) && -((la as int) * (
        lb as int)) <= (a.x as int) * (b.x as int)) by (nonlinear_arith)
            requires
                -(la as int) <= a.x <= la as int,
                -(lb as int) <= b.x <= lb as int,
                0 <= la as int,
                0 <= lb as int,
        ;
        assert((a.y as int) * (b.y as int) <= (la as int) * (lb as int) && -((la as int) * (
        lb as int)) <= (a.y as int) * (b.y as int)) by (nonlinear_arith)
            requires
                -(la as int) <= a.y <= la as int,
                -(lb as int) <= b.y <= lb as int,
                0 <= la as int,
                0 <= lb as int,
        ;
        assert((a.z as int) * (b.z as int) <= (la as int) * (lb as int) && -((la as int) * (
        lb as int)) <= (a.z as int) * (b.z as int)) by (nonlinear_arith)
            requires
                -(la as int) <= a.z <= la as int,
                -(lb as int) <= b.z <= lb as int,
                0 <= la as int,
                0 <= lb as int,
        ;
    }
    (a.x as i128) * (b.x as i128) + (a.y as i128) * (b.y as i128) + (a.z as i128) * (b.z as i128)
}

} // verus!
