//! Three-component vectors in fixed point, and the mathematical vectors
//! that the contracts speak of.

use crate::fixed::{
    is_sqrt_floor, isqrt, lemma_product_sign, lemma_product_within, lemma_rescale_bracket,
    lemma_rescale_within, lemma_rescaled_product_sign, rescale, sqrt_floor,
    wide_mul, wide_mul_rescale, wide_rescale, within, AXIS_LIMIT, FORCE_LIMIT, LIMIT,
};
use vstd::prelude::*;

verus! {

/// A vector of mathematical integers: the model of [`Vec3`] and [`WideVec3`].
pub struct Vector {
    pub x: int,
    pub y: int,
    pub z: int,
}

impl Vector {
    pub open spec fn zero() -> Vector {
        Vector { x: 0, y: 0, z: 0 }
    }

    pub open spec fn plus(self, other: Vector) -> Vector {
        Vector { x: self.x + other.x, y: self.y + other.y, z: self.z + other.z }
    }

    pub open spec fn minus(self, other: Vector) -> Vector {
        Vector { x: self.x - other.x, y: self.y - other.y, z: self.z - other.z }
    }

    pub open spec fn negated(self) -> Vector {
        Vector { x: -self.x, y: -self.y, z: -self.z }
    }

    /// Sum of the products of the components, at twice the scale.
    pub open spec fn dot_raw(self, other: Vector) -> int {
        self.x * other.x + self.y * other.y + self.z * other.z
    }

    /// The right-handed cross product, at twice the scale.
    pub open spec fn cross_raw(self, other: Vector) -> Vector {
        Vector {
            x: self.y * other.z - self.z * other.y,
            y: self.z * other.x - self.x * other.z,
            z: self.x * other.y - self.y * other.x,
        }
    }

    /// Every component brought back to the common scale.
    pub open spec fn rescaled(self) -> Vector {
        Vector { x: rescale(self.x), y: rescale(self.y), z: rescale(self.z) }
    }

    /// Every component multiplied by the plain integer `k`.
    pub open spec fn times(self, k: int) -> Vector {
        Vector { x: self.x * k, y: self.y * k, z: self.z * k }
    }

    /// The fixed-point dot product.
    pub open spec fn dot(self, other: Vector) -> int {
        rescale(self.dot_raw(other))
    }

    /// The fixed-point cross product.
    pub open spec fn cross(self, other: Vector) -> Vector {
        self.cross_raw(other).rescaled()
    }

    /// The vector scaled by the fixed-point number `k`.
    pub open spec fn scaled(self, k: int) -> Vector {
        self.times(k).rescaled()
    }

    /// The squared length, at twice the scale.
    pub open spec fn norm_sq_raw(self) -> int {
        self.dot_raw(self)
    }

    /// The length, rounded down to a whole step.
    pub open spec fn length(self) -> int {
        sqrt_floor(self.norm_sq_raw())
    }

    /// Every component lies between `-bound` and `bound`.
    pub open spec fn within(self, bound: int) -> bool {
        within(self.x, bound) && within(self.y, bound) && within(self.z, bound)
    }

    /// The stored vector that stands for this one, where it fits in 64 bits.
    pub open spec fn stored(self) -> Vec3 {
        Vec3 { x: self.x as i64, y: self.y as i64, z: self.z as i64 }
    }
}

/// A vector whose components are stored in thousandths.
#[derive(Clone, Copy, Debug, PartialEq, Eq, Structural)]
pub struct Vec3 {
    pub x: i64,
    pub y: i64,
    pub z: i64,
}

impl View for Vec3 {
    type V = Vector;

    open spec fn view(&self) -> Vector {
        Vector { x: self.x as int, y: self.y as int, z: self.z as int }
    }
}

/// A vector with room for sums over a whole tick.
#[derive(Clone, Copy, Debug, PartialEq, Eq, Structural)]
pub struct WideVec3 {
    pub x: i128,
    pub y: i128,
    pub z: i128,
}

impl View for WideVec3 {
    type V = Vector;

    open spec fn view(&self) -> Vector {
        Vector { x: self.x as int, y: self.y as int, z: self.z as int }
    }
}

impl WideVec3 {
    pub fn zero() -> (r: WideVec3)
        ensures
            r@ == Vector::zero(),
    {
        WideVec3 { x: 0, y: 0, z: 0 }
    }

    pub(crate) fn from_vec3(v: Vec3) -> (r: WideVec3)
        ensures
            r@ == v@,
    {
        WideVec3 { x: v.x as i128, y: v.y as i128, z: v.z as i128 }
    }

    pub(crate) fn plus(self, other: WideVec3, Ghost(bound_a): Ghost<int>, Ghost(bound_b): Ghost<int>) -> (r:
        WideVec3)
        requires
            self@.within(bound_a),
            other@.within(bound_b),
            bound_a + bound_b <= i128::MAX,
        ensures
            r@ == self@.plus(other@),
            r@.within(bound_a + bound_b),
    {
        WideVec3 { x: self.x + other.x, y: self.y + other.y, z: self.z + other.z }
    }

    pub(crate) fn minus(self, other: WideVec3, Ghost(bound_a): Ghost<int>, Ghost(bound_b): Ghost<int>) -> (r:
        WideVec3)
        requires
            self@.within(bound_a),
            other@.within(bound_b),
            bound_a + bound_b <= i128::MAX,
        ensures
            r@ == self@.minus(other@),
            r@.within(bound_a + bound_b),
    {
        WideVec3 { x: self.x - other.x, y: self.y - other.y, z: self.z - other.z }
    }

    pub(crate) fn dot(self, other: WideVec3, Ghost(bound_a): Ghost<int>, Ghost(bound_b): Ghost<int>) -> (r:
        i128)
        requires
            self@.within(bound_a),
            other@.within(bound_b),
            3 * (bound_a * bound_b) <= i128::MAX,
        ensures
            r == self@.dot(other@),
            within(r as int, 3 * (bound_a * bound_b) / 1000),
    {
        proof {
            lemma_product_within(self.x as int, other.x as int, bound_a, bound_b);
        }
        let xx = wide_mul(self.x, other.x, Ghost(bound_a), Ghost(bound_b));
        let yy = wide_mul(self.y, other.y, Ghost(bound_a), Ghost(bound_b));
        let zz = wide_mul(self.z, other.z, Ghost(bound_a), Ghost(bound_b));
        let sum = xx + yy + zz;
        proof {
            lemma_rescale_within(sum as int, 3 * (bound_a * bound_b));
        }
        wide_rescale(sum)
    }

    pub(crate) fn cross(self, other: WideVec3, Ghost(bound_a): Ghost<int>, Ghost(bound_b): Ghost<int>) -> (r:
        WideVec3)
        requires
            self@.within(bound_a),
            other@.within(bound_b),
            2 * (bound_a * bound_b) <= i128::MAX,
        ensures
            r@ == self@.cross(other@),
            r@.within(2 * (bound_a * bound_b) / 1000),
    {
        proof {
            lemma_product_within(self.x as int, other.x as int, bound_a, bound_b);
        }
        let yz = wide_mul(self.y, other.z, Ghost(bound_a), Ghost(bound_b));
        let zy = wide_mul(self.z, other.y, Ghost(bound_a), Ghost(bound_b));
        let zx = wide_mul(self.z, other.x, Ghost(bound_a), Ghost(bound_b));
        let xz = wide_mul(self.x, other.z, Ghost(bound_a), Ghost(bound_b));
        let xy = wide_mul(self.x, other.y, Ghost(bound_a), Ghost(bound_b));
        let yx = wide_mul(self.y, other.x, Ghost(bound_a), Ghost(bound_b));
        proof {
            lemma_rescale_within(yz - zy, 2 * (bound_a * bound_b));
            lemma_rescale_within(zx - xz, 2 * (bound_a * bound_b));
            lemma_rescale_within(xy - yx, 2 * (bound_a * bound_b));
        }
        WideVec3 { x: wide_rescale(yz - zy), y: wide_rescale(zx - xz), z: wide_rescale(xy - yx) }
    }

    pub(crate) fn scaled(self, k: i128, Ghost(bound_a): Ghost<int>, Ghost(bound_k): Ghost<int>) -> (r:
        WideVec3)
        requires
            self@.within(bound_a),
            within(k as int, bound_k),
            bound_a * bound_k <= i128::MAX,
        ensures
            r@ == self@.scaled(k as int),
            r@.within(bound_a * bound_k / 1000),
    {
        WideVec3 {
            x: wide_mul_rescale(self.x, k, Ghost(bound_a), Ghost(bound_k)),
            y: wide_mul_rescale(self.y, k, Ghost(bound_a), Ghost(bound_k)),
            z: wide_mul_rescale(self.z, k, Ghost(bound_a), Ghost(bound_k)),
        }
    }

    /// The same vector in 64 bits, if every component is within `limit`.
    pub(crate) fn narrowed(self, limit: i64) -> (r: Option<Vec3>)
        requires
            limit >= 0,
        ensures
            r.is_some() == self@.within(limit as int),
            r.is_some() ==> r.unwrap()@ == self@,
    {
        let wide_limit = limit as i128;
        if -wide_limit <= self.x && self.x <= wide_limit && -wide_limit <= self.y && self.y
            <= wide_limit && -wide_limit <= self.z && self.z <= wide_limit {
            Some(Vec3 { x: self.x as i64, y: self.y as i64, z: self.z as i64 })
        } else {
            None
        }
    }
}

impl Vec3 {
    /// Position, velocity and the like: every component within `LIMIT`.
    pub open spec fn bounded(self) -> bool {
        self@.within(LIMIT as int)
    }

    /// A direction: every component within `AXIS_LIMIT`.
    pub open spec fn is_axis(self) -> bool {
        self@.within(AXIS_LIMIT as int)
    }

    /// A force: every component within `FORCE_LIMIT`.
    pub open spec fn is_force(self) -> bool {
        self@.within(FORCE_LIMIT as int)
    }

    pub fn new(x: i64, y: i64, z: i64) -> (r: Vec3)
        ensures
            r == (Vec3 { x, y, z }),
    {
        Vec3 { x, y, z }
    }

    pub fn zero() -> (r: Vec3)
        ensures
            r@ == Vector::zero(),
    {
        Vec3 { x: 0, y: 0, z: 0 }
    }

    pub fn is_zero(self) -> (r: bool)
        ensures
            r == (self@ == Vector::zero()),
    {
        self.x == 0 && self.y == 0 && self.z == 0
    }

    /// Tells whether every component is within `limit`.
    pub fn fits(self, limit: i64) -> (r: bool)
        requires
            limit >= 0,
        ensures
            r == self@.within(limit as int),
    {
        -limit <= self.x && self.x <= limit && -limit <= self.y && self.y <= limit && -limit
            <= self.z && self.z <= limit
    }

    pub fn is_bounded(self) -> (r: bool)
        ensures
            r == self.bounded(),
    {
        self.fits(LIMIT)
    }

    pub fn plus(self, other: Vec3) -> (r: Vec3)
        requires
            self.bounded(),
            other.bounded(),
        ensures
            r@ == self@.plus(other@),
    {
        Vec3 { x: self.x + other.x, y: self.y + other.y, z: self.z + other.z }
    }

    pub fn minus(self, other: Vec3) -> (r: Vec3)
        requires
            self.bounded(),
            other.bounded(),
        ensures
            r@ == self@.minus(other@),
    {
        Vec3 { x: self.x - other.x, y: self.y - other.y, z: self.z - other.z }
    }

    pub fn negated(self) -> (r: Vec3)
        requires
            self.bounded(),
        ensures
            r@ == self@.negated(),
    {
        Vec3 { x: -self.x, y: -self.y, z: -self.z }
    }

    /// The vector scaled by the fixed-point number `k`.
    pub fn scaled(self, k: i64) -> (r: Vec3)
        requires
            self.bounded(),
            within(k as int, LIMIT as int),
        ensures
            r@ == self@.scaled(k as int),
    {
        let wide = WideVec3::from_vec3(self).scaled(
            k as i128,
            Ghost(1_000_000_000int),
            Ghost(1_000_000_000int),
        );
        Vec3 { x: wide.x as i64, y: wide.y as i64, z: wide.z as i64 }
    }

    /// The fixed-point dot product.
    pub fn dot(self, other: Vec3) -> (r: i64)
        requires
            self.bounded(),
            other.bounded(),
        ensures
            r == self@.dot(other@),
    {
        let wide = WideVec3::from_vec3(self).dot(
            WideVec3::from_vec3(other),
            Ghost(1_000_000_000int),
            Ghost(1_000_000_000int),
        );
        wide as i64
    }

    /// The right-handed fixed-point cross product.
    pub fn cross(self, other: Vec3) -> (r: Vec3)
        requires
            self.bounded(),
            other.bounded(),
        ensures
            r@ == self@.cross(other@),
    {
        let wide = WideVec3::from_vec3(self).cross(
            WideVec3::from_vec3(other),
            Ghost(1_000_000_000int),
            Ghost(1_000_000_000int),
        );
        Vec3 { x: wide.x as i64, y: wide.y as i64, z: wide.z as i64 }
    }

    /// The length, rounded down to a whole step.
    pub fn length(self) -> (r: i64)
        requires
            self.bounded(),
        ensures
            r == self@.length(),
            is_sqrt_floor(self@.norm_sq_raw(), r as int),
            0 <= r <= 2 * LIMIT,
    {
        proof {
            lemma_product_within(self.x as int, self.x as int, LIMIT as int, LIMIT as int);
            lemma_product_within(self.y as int, self.y as int, LIMIT as int, LIMIT as int);
            lemma_product_within(self.z as int, self.z as int, LIMIT as int, LIMIT as int);
            assert(self.x * self.x >= 0) by (nonlinear_arith);
            assert(self.y * self.y >= 0) by (nonlinear_arith);
            assert(self.z * self.z >= 0) by (nonlinear_arith);
        }
        let sum: i64 = self.x * self.x + self.y * self.y + self.z * self.z;
        let root = isqrt(sum as u64);
        proof {
            assert(root <= 2 * LIMIT) by (nonlinear_arith)
                requires
                    root * root <= sum,
                    sum <= 3_000_000_000_000_000_000,
                    LIMIT == 1_000_000_000,
            ;
        }
        root as i64
    }
}

/// The determinant of the matrix whose rows are `a`, `b` and `c`: positive
/// where the three, in this order, form a right-handed frame.
pub open spec fn determinant(a: Vector, b: Vector, c: Vector) -> int {
    a.x * (b.y * c.z - b.z * c.y) - a.y * (b.x * c.z - b.z * c.x) + a.z * (b.x * c.y - b.y * c.x)
}

/// The square of a difference.
proof fn lemma_square_of_difference(p: int, q: int)
    by (nonlinear_arith)
    ensures
        (p - q) * (p - q) == p * p - 2 * (p * q) + q * q,
{
}

/// The square of a sum of three.
proof fn lemma_square_of_sum(p: int, q: int, r: int)
    by (nonlinear_arith)
    ensures
        (p + q + r) * (p + q + r) == p * p + q * q + r * r + 2 * (p * q) + 2 * (p * r) + 2 * (q
            * r),
{
}

/// A product of two products may be regrouped.
proof fn lemma_regroup(a: int, b: int, c: int, d: int)
    by (nonlinear_arith)
    ensures
        (a * b) * (c * d) == (a * c) * (b * d),
        (a * b) * (c * d) == (a * d) * (c * b),
{
}

/// A sum of three times a sum of three.
proof fn lemma_product_of_sums(a: int, b: int, c: int, x: int, y: int, z: int)
    by (nonlinear_arith)
    ensures
        (a + b + c) * (x + y + z) == a * x + a * y + a * z + b * x + b * y + b * z + c * x + c * y
            + c * z,
{
}

/// A factor times a difference.
proof fn lemma_times_difference(a: int, p: int, q: int)
    by (nonlinear_arith)
    ensures
        a * (p - q) == a * p - a * q,
{
}

/// A product of three in another order.
proof fn lemma_rotate(a: int, b: int, c: int)
    by (nonlinear_arith)
    ensures
        a * (b * c) == c * (a * b),
        a * (b * c) == b * (c * a),
        a * (b * c) == c * (b * a),
        a * (b * c) == b * (a * c),
{
}

/// The squared length of a cross product and the square of the dot product
/// add up to the product of the squared lengths.
pub proof fn lemma_cross_magnitude(a: Vector, b: Vector)
    ensures
        a.cross_raw(b).norm_sq_raw() + a.dot_raw(b) * a.dot_raw(b) == a.norm_sq_raw()
            * b.norm_sq_raw(),
{
    let (ax, ay, az) = (a.x, a.y, a.z);
    let (bx, by, bz) = (b.x, b.y, b.z);
    lemma_square_of_difference(ay * bz, az * by);
    lemma_square_of_difference(az * bx, ax * bz);
    lemma_square_of_difference(ax * by, ay * bx);
    lemma_square_of_sum(ax * bx, ay * by, az * bz);
    // The mixed terms of the squares of the differences are those of the
    // square of the sum.
    lemma_regroup(ay, bz, az, by);
    lemma_regroup(az, bx, ax, bz);
    lemma_regroup(ax, by, ay, bx);
    // Every square is a product of two squares of components.
    lemma_regroup(ay, bz, ay, bz);
    lemma_regroup(az, by, az, by);
    lemma_regroup(az, bx, az, bx);
    lemma_regroup(ax, bz, ax, bz);
    lemma_regroup(ax, by, ax, by);
    lemma_regroup(ay, bx, ay, bx);
    lemma_regroup(ax, bx, ax, bx);
    lemma_regroup(ay, by, ay, by);
    lemma_regroup(az, bz, az, bz);
    lemma_product_of_sums(ax * ax, ay * ay, az * az, bx * bx, by * by, bz * bz);
}

/// An arm at a right angle to a force gives a torque as large as the length
/// of the arm times the size of the force.
pub proof fn lemma_cross_of_perpendicular(arm: Vector, force: Vector)
    requires
        arm.dot_raw(force) == 0,
    ensures
        arm.cross_raw(force).norm_sq_raw() == arm.norm_sq_raw() * force.norm_sq_raw(),
{
    lemma_cross_magnitude(arm, force);
}

/// Three vectors may be rotated through the determinant: it is the dot
/// product of the last with the cross product of the first two.
pub proof fn lemma_determinant_is_triple_product(a: Vector, b: Vector, c: Vector)
    ensures
        determinant(a, b, c) == c.dot_raw(a.cross_raw(b)),
{
    let (ax, ay, az) = (a.x, a.y, a.z);
    let (bx, by, bz) = (b.x, b.y, b.z);
    let (cx, cy, cz) = (c.x, c.y, c.z);
    lemma_times_difference(ax, by * cz, bz * cy);
    lemma_times_difference(ay, bx * cz, bz * cx);
    lemma_times_difference(az, bx * cy, by * cx);
    lemma_times_difference(cx, ay * bz, az * by);
    lemma_times_difference(cy, az * bx, ax * bz);
    lemma_times_difference(cz, ax * by, ay * bx);
    lemma_rotate(ax, by, cz);
    lemma_rotate(ax, bz, cy);
    lemma_rotate(ay, bx, cz);
    lemma_rotate(ay, bz, cx);
    lemma_rotate(az, bx, cy);
    lemma_rotate(az, by, cx);
}

/// The cross product stands at a right angle to both of its factors, on the
/// side that the right-hand rule gives.
pub proof fn lemma_cross_is_right_handed(a: Vector, b: Vector)
    ensures
        a.dot_raw(a.cross_raw(b)) == 0,
        b.dot_raw(a.cross_raw(b)) == 0,
        determinant(a, b, a.cross_raw(b)) == a.cross_raw(b).norm_sq_raw(),
        determinant(a, b, a.cross_raw(b)) >= 0,
{
    let (ax, ay, az) = (a.x, a.y, a.z);
    let (bx, by, bz) = (b.x, b.y, b.z);
    let c = a.cross_raw(b);
    lemma_times_difference(ax, ay * bz, az * by);
    lemma_times_difference(ay, az * bx, ax * bz);
    lemma_times_difference(az, ax * by, ay * bx);
    lemma_rotate(ax, ay, bz);
    lemma_rotate(ax, az, by);
    lemma_rotate(ay, az, bx);
    lemma_rotate(ay, ax, bz);
    lemma_rotate(az, ax, by);
    lemma_rotate(az, ay, bx);
    assert(a.dot_raw(c) == 0);
    lemma_times_difference(bx, ay * bz, az * by);
    lemma_times_difference(by, az * bx, ax * bz);
    lemma_times_difference(bz, ax * by, ay * bx);
    lemma_rotate(bx, ay, bz);
    lemma_rotate(bx, az, by);
    lemma_rotate(by, az, bx);
    lemma_rotate(by, ax, bz);
    lemma_rotate(bz, ax, by);
    lemma_rotate(bz, ay, bx);
    assert(b.dot_raw(c) == 0);
    lemma_determinant_is_triple_product(a, b, c);
    assert(c.x * c.x >= 0 && c.y * c.y >= 0 && c.z * c.z >= 0) by (nonlinear_arith);
}

/// A vector scaled by a number that is not negative does not point against
/// the vector; scaled by a number that is not positive, it does not point
/// along it.
pub proof fn lemma_scaled_keeps_direction(v: Vector, k: int)
    ensures
        k >= 0 ==> v.scaled(k).dot_raw(v) >= 0,
        k <= 0 ==> v.scaled(k).dot_raw(v) <= 0,
{
    lemma_scaled_component_sign(v.x, k);
    lemma_scaled_component_sign(v.y, k);
    lemma_scaled_component_sign(v.z, k);
}

/// A vector scaled by a positive number points along the vector, unless
/// rounding leaves nothing of it. Rounding leaves something as soon as one
/// component times the scale makes up a whole step.
pub proof fn lemma_scaled_points_along(v: Vector, k: int)
    requires
        k > 0,
    ensures
        v.scaled(k) != Vector::zero() ==> v.scaled(k).dot_raw(v) > 0,
        !within(v.x * k, 999) || !within(v.y * k, 999) || !within(v.z * k, 999) ==> v.scaled(k)
            != Vector::zero(),
{
    lemma_scaled_component_strict(v.x, k);
    lemma_scaled_component_strict(v.y, k);
    lemma_scaled_component_strict(v.z, k);
    lemma_scaled_component_sign(v.x, k);
    lemma_scaled_component_sign(v.y, k);
    lemma_scaled_component_sign(v.z, k);
}

/// One component of a vector scaled by a positive number is nothing exactly
/// where rounding takes all of it, and else has the sign of the component it
/// came from.
proof fn lemma_scaled_component_strict(c: int, k: int)
    requires
        k > 0,
    ensures
        rescale(c * k) != 0 ==> rescale(c * k) * c > 0,
        rescale(c * k) == 0 <==> within(c * k, 999),
{
    let scaled = rescale(c * k);
    lemma_rescale_bracket(c * k);
    lemma_product_sign(c, k);
    if scaled != 0 {
        if c > 0 {
            assert(scaled > 0);
            assert(scaled * c > 0) by (nonlinear_arith)
                requires
                    scaled > 0,
                    c > 0,
            ;
        } else if c < 0 {
            assert(scaled < 0);
            assert(scaled * c > 0) by (nonlinear_arith)
                requires
                    scaled < 0,
                    c < 0,
            ;
        } else {
            assert(c * k == 0);
        }
    }
}

/// One component of a scaled vector times the component it came from has
/// the sign of the scale, or is nothing.
proof fn lemma_scaled_component_sign(c: int, k: int)
    ensures
        k >= 0 ==> rescale(c * k) * c >= 0,
        k <= 0 ==> rescale(c * k) * c <= 0,
{
    lemma_rescaled_product_sign(c, k);
    lemma_product_sign(rescale(c * k), c);
}

/// Swapping the factors of a cross product turns it round.
pub proof fn lemma_cross_is_antisymmetric(a: Vector, b: Vector)
    ensures
        b.cross_raw(a) == a.cross_raw(b).negated(),
        b.cross(a) == a.cross(b).negated(),
{
    assert(b.y * a.z == a.z * b.y && b.z * a.y == a.y * b.z && b.z * a.x == a.x * b.z && b.x * a.z
        == a.z * b.x && b.x * a.y == a.y * b.x && b.y * a.x == a.x * b.y) by (nonlinear_arith);
}

} // verus!
