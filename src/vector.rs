use vstd::prelude::*;

use crate::{div_trunc, fits, sum3_fits};

verus! {

/// A vector or point in three-dimensional space.
///
/// Equality is exact and componentwise.
#[derive(Clone, Copy, Debug, PartialEq, Eq, Structural)]
pub struct Vector {
    pub x: i64,
    pub y: i64,
    pub z: i64,
}

/// The exact inner product of two vectors.
pub open spec fn dot_of(a: Vector, b: Vector) -> int {
    a.x * b.x + a.y * b.y + a.z * b.z
}

/// Every partial result of the inner product fits in an `i64`.
pub open spec fn dot_fits(a: Vector, b: Vector) -> bool {
    sum3_fits(a.x as int, b.x as int, a.y as int, b.y as int, a.z as int, b.z as int)
}

/// First component of the right-handed cross product.
pub open spec fn cross_x(a: Vector, b: Vector) -> int {
    a.y * b.z - a.z * b.y
}

/// Second component of the right-handed cross product.
pub open spec fn cross_y(a: Vector, b: Vector) -> int {
    a.z * b.x - a.x * b.z
}

/// Third component of the right-handed cross product.
pub open spec fn cross_z(a: Vector, b: Vector) -> int {
    a.x * b.y - a.y * b.x
}

/// Every partial result of the cross product fits in an `i64`.
pub open spec fn cross_fits(a: Vector, b: Vector) -> bool {
    &&& fits(a.y * b.z) && fits(a.z * b.y) && fits(cross_x(a, b))
    &&& fits(a.z * b.x) && fits(a.x * b.z) && fits(cross_y(a, b))
    &&& fits(a.x * b.y) && fits(a.y * b.x) && fits(cross_z(a, b))
}

/// The integer square root: the largest `r` with `r * r <= n`.
pub open spec fn is_floor_sqrt(n: int, r: int) -> bool {
    0 <= r && r * r <= n && n < (r + 1) * (r + 1)
}

/// Bound above which every square exceeds `i64::MAX`.
const SQRT_BOUND: i64 = 3037000500;

/// Integer square root of a non-negative `i64`, by bisection.
fn floor_sqrt(n: i64) -> (r: i64)
    requires
        n >= 0,
    ensures
        is_floor_sqrt(n as int, r as int),
{
    let mut lo: i64 = 0;
    let mut hi: i64 = SQRT_BOUND;
    assert(SQRT_BOUND * SQRT_BOUND > i64::MAX) by (nonlinear_arith);
    while hi - lo > 1
        invariant
            0 <= lo < hi <= SQRT_BOUND,
            lo * lo <= n,
            n < hi * hi,
        decreases hi - lo,
    {
        let mid: i64 = lo + (hi - lo) / 2;
        assert(mid * mid <= SQRT_BOUND * SQRT_BOUND) by (nonlinear_arith)
            requires 0 <= mid < SQRT_BOUND;
        assert(mid * mid < 0x7fff_ffff_ffff_ffff) by (nonlinear_arith)
            requires 0 <= mid < SQRT_BOUND;
        if mid * mid <= n {
            lo = mid;
        } else {
            hi = mid;
        }
    }
    lo
}

impl Default for Vector {
    /// The zero vector.
    fn default() -> (r: Vector)
        ensures
            r.x == 0 && r.y == 0 && r.z == 0,
    {
        Vector { x: 0, y: 0, z: 0 }
    }
}

impl Vector {
    pub fn new(x: i64, y: i64, z: i64) -> (r: Vector)
        ensures
            r.x == x && r.y == y && r.z == z,
    {
        Vector { x, y, z }
    }

    /// The vector whose three components are all `scalar`.
    pub fn scalar(scalar: i64) -> (r: Vector)
        ensures
            r.x == scalar && r.y == scalar && r.z == scalar,
    {
        Vector { x: scalar, y: scalar, z: scalar }
    }

    /// The unit vector along the first axis.
    pub fn x_axis() -> (r: Vector)
        ensures
            r.x == 1 && r.y == 0 && r.z == 0,
    {
        Vector { x: 1, y: 0, z: 0 }
    }

    /// The unit vector along the second axis.
    pub fn y_axis() -> (r: Vector)
        ensures
            r.x == 0 && r.y == 1 && r.z == 0,
    {
        Vector { x: 0, y: 1, z: 0 }
    }

    /// The unit vector along the third axis.
    pub fn z_axis() -> (r: Vector)
        ensures
            r.x == 0 && r.y == 0 && r.z == 1,
    {
        Vector { x: 0, y: 0, z: 1 }
    }

    /// The inner product `x1*x2 + y1*y2 + z1*z2`.
    pub fn dot(&self, rhs: &Vector) -> (r: i64)
        requires
            dot_fits(*self, *rhs),
        ensures
            r == dot_of(*self, *rhs),
    {
        self.x * rhs.x + self.y * rhs.y + self.z * rhs.z
    }

    /// The right-handed cross product.
    pub fn cross(&self, rhs: &Vector) -> (r: Vector)
        requires
            cross_fits(*self, *rhs),
        ensures
            r.x == cross_x(*self, *rhs),
            r.y == cross_y(*self, *rhs),
            r.z == cross_z(*self, *rhs),
    {
        Vector {
            x: self.y * rhs.z - self.z * rhs.y,
            y: self.z * rhs.x - self.x * rhs.z,
            z: self.x * rhs.y - self.y * rhs.x,
        }
    }

    /// The squared length, which is the inner product of the vector with itself.
    pub fn magnitude_squared(&self) -> (r: i64)
        requires
            dot_fits(*self, *self),
        ensures
            r == dot_of(*self, *self),
            r >= 0,
    {
        proof {
            lemma_magnitude_squared_nonneg(*self);
        }
        self.dot(self)
    }

    /// Each component divided, truncating toward zero, by the integer part
    /// of the vector's length. The zero vector has no direction, so it is
    /// not accepted.
    pub fn normalize(&self) -> (r: Vector)
        requires
            dot_fits(*self, *self),
            dot_of(*self, *self) > 0,
        ensures
            exists|m: int|
                is_floor_sqrt(dot_of(*self, *self), m) && m > 0
                && r.x == div_trunc(self.x as int, m)
                && r.y == div_trunc(self.y as int, m)
                && r.z == div_trunc(self.z as int, m),
    {
        let mag = floor_sqrt(self.magnitude_squared());
        assert(mag > 0) by (nonlinear_arith)
            requires is_floor_sqrt(dot_of(*self, *self), mag as int), dot_of(*self, *self) > 0;
        let r = Vector { x: self.x / mag, y: self.y / mag, z: self.z / mag };
        assert(r.x == div_trunc(self.x as int, mag as int));
        r
    }

    /// The componentwise sum.
    pub fn add(&self, rhs: &Vector) -> (r: Vector)
        requires
            fits(self.x + rhs.x) && fits(self.y + rhs.y) && fits(self.z + rhs.z),
        ensures
            r.x == self.x + rhs.x && r.y == self.y + rhs.y && r.z == self.z + rhs.z,
    {
        Vector { x: self.x + rhs.x, y: self.y + rhs.y, z: self.z + rhs.z }
    }

    /// The componentwise difference.
    pub fn sub(&self, rhs: &Vector) -> (r: Vector)
        requires
            fits(self.x - rhs.x) && fits(self.y - rhs.y) && fits(self.z - rhs.z),
        ensures
            r.x == self.x - rhs.x && r.y == self.y - rhs.y && r.z == self.z - rhs.z,
    {
        Vector { x: self.x - rhs.x, y: self.y - rhs.y, z: self.z - rhs.z }
    }

    /// Every component multiplied by `scalar`.
    pub fn mul_scalar(&self, scalar: i64) -> (r: Vector)
        requires
            fits(self.x * scalar) && fits(self.y * scalar) && fits(self.z * scalar),
        ensures
            r.x == self.x * scalar && r.y == self.y * scalar && r.z == self.z * scalar,
    {
        Vector { x: self.x * scalar, y: self.y * scalar, z: self.z * scalar }
    }

    /// Every component divided by `scalar`, rounding toward zero.
    pub fn div_scalar(&self, scalar: i64) -> (r: Vector)
        requires
            scalar != 0,
            fits(div_trunc(self.x as int, scalar as int)),
            fits(div_trunc(self.y as int, scalar as int)),
            fits(div_trunc(self.z as int, scalar as int)),
        ensures
            r.x == div_trunc(self.x as int, scalar as int),
            r.y == div_trunc(self.y as int, scalar as int),
            r.z == div_trunc(self.z as int, scalar as int),
    {
        Vector { x: self.x / scalar, y: self.y / scalar, z: self.z / scalar }
    }

    /// Adds `rhs` to this vector in place.
    pub fn add_assign(&mut self, rhs: &Vector)
        requires
            fits(old(self).x + rhs.x) && fits(old(self).y + rhs.y) && fits(old(self).z + rhs.z),
        ensures
            *final(self) == old(self).add_spec(*rhs),
    {
        *self = self.add(rhs);
    }

    /// Subtracts `rhs` from this vector in place.
    pub fn sub_assign(&mut self, rhs: &Vector)
        requires
            fits(old(self).x - rhs.x) && fits(old(self).y - rhs.y) && fits(old(self).z - rhs.z),
        ensures
            *final(self) == old(self).sub_spec(*rhs),
    {
        *self = self.sub(rhs);
    }

    /// Multiplies every component by `scalar` in place.
    pub fn mul_scalar_assign(&mut self, scalar: i64)
        requires
            fits(old(self).x * scalar) && fits(old(self).y * scalar) && fits(old(self).z * scalar),
        ensures
            final(self).x == old(self).x * scalar,
            final(self).y == old(self).y * scalar,
            final(self).z == old(self).z * scalar,
    {
        *self = self.mul_scalar(scalar);
    }

    /// Divides every component by `scalar` in place, rounding toward zero.
    pub fn div_scalar_assign(&mut self, scalar: i64)
        requires
            scalar != 0,
            fits(div_trunc(old(self).x as int, scalar as int)),
            fits(div_trunc(old(self).y as int, scalar as int)),
            fits(div_trunc(old(self).z as int, scalar as int)),
        ensures
            final(self).x == div_trunc(old(self).x as int, scalar as int),
            final(self).y == div_trunc(old(self).y as int, scalar as int),
            final(self).z == div_trunc(old(self).z as int, scalar as int),
    {
        *self = self.div_scalar(scalar);
    }
}

impl Vector {
    /// The componentwise sum, as a value.
    pub open spec fn add_spec(self, rhs: Vector) -> Vector {
        Vector { x: (self.x + rhs.x) as i64, y: (self.y + rhs.y) as i64, z: (self.z + rhs.z) as i64 }
    }

    /// The componentwise difference, as a value.
    pub open spec fn sub_spec(self, rhs: Vector) -> Vector {
        Vector { x: (self.x - rhs.x) as i64, y: (self.y - rhs.y) as i64, z: (self.z - rhs.z) as i64 }
    }
}

/// The squared length of a vector is never negative.
pub proof fn lemma_magnitude_squared_nonneg(a: Vector)
    ensures
        dot_of(a, a) >= 0,
{
    assert(a.x * a.x >= 0 && a.y * a.y >= 0 && a.z * a.z >= 0) by (nonlinear_arith);
}

/// The cross product is anti-commutative: `a x b` is `b x a` with every
/// component negated, and the cross product of a vector with itself is zero.
pub proof fn lemma_cross_anticommutative(a: Vector, b: Vector)
    ensures
        cross_x(a, b) == -cross_x(b, a),
        cross_y(a, b) == -cross_y(b, a),
        cross_z(a, b) == -cross_z(b, a),
        cross_x(a, a) == 0 && cross_y(a, a) == 0 && cross_z(a, a) == 0,
{
    assert(a.y * b.z == b.z * a.y && a.z * b.y == b.y * a.z) by (nonlinear_arith);
    assert(a.z * b.x == b.x * a.z && a.x * b.z == b.z * a.x) by (nonlinear_arith);
    assert(a.x * b.y == b.y * a.x && a.y * b.x == b.x * a.y) by (nonlinear_arith);
    assert(a.y * a.z == a.z * a.y && a.z * a.x == a.x * a.z && a.x * a.y == a.y * a.x)
        by (nonlinear_arith);
}

/// The inner product is commutative.
pub proof fn lemma_dot_commutative(a: Vector, b: Vector)
    ensures
        dot_of(a, b) == dot_of(b, a),
{
    assert(a.x * b.x == b.x * a.x && a.y * b.y == b.y * a.y && a.z * b.z == b.z * a.z)
        by (nonlinear_arith);
}

} // verus!
