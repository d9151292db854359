//! Fixed-point numbers.
//!
//! Every quantity of the model is an integer count of thousandths: a stored
//! `1500` stands for one and a half metres, newtons, kilograms or radians.
//! Sums and differences are exact. A product of two stored numbers carries
//! the scale twice and is brought back by one division, rounded toward zero.

use vstd::prelude::*;

verus! {

/// Raw steps in one unit.
pub const SCALE: i64 = 1000;

/// Largest magnitude a measured quantity may have: a million units.
pub const LIMIT: i64 = 1_000_000_000;

/// Largest magnitude one component of a force may have: a thousand million units.
pub const FORCE_LIMIT: i64 = 1_000_000_000_000;

/// Largest magnitude one component of a unit direction may have.
pub const AXIS_LIMIT: i64 = 1000;

/// Quotient of `n` by a positive `d`, rounded toward zero.
pub open spec fn trunc_div(n: int, d: int) -> int {
    if n >= 0 {
        n / d
    } else {
        -((-n) / d)
    }
}

/// Brings a product of two stored numbers back to the common scale.
pub open spec fn rescale(n: int) -> int {
    trunc_div(n, SCALE as int)
}

/// `x` lies between `-bound` and `bound`.
pub open spec fn within(x: int, bound: int) -> bool {
    -bound <= x <= bound
}

/// `r` is the integer part of the square root of `n`.
pub open spec fn is_sqrt_floor(n: int, r: int) -> bool {
    0 <= r && r * r <= n < (r + 1) * (r + 1)
}

/// The integer part of the square root of a non-negative `n`.
pub open spec fn sqrt_floor(n: int) -> int {
    choose|r: int| is_sqrt_floor(n, r)
}

/// A product is bounded by the product of the bounds of its factors.
pub proof fn lemma_product_within(a: int, b: int, bound_a: int, bound_b: int)
    by (nonlinear_arith)
    requires
        -bound_a <= a <= bound_a,
        -bound_b <= b <= bound_b,
    ensures
        -(bound_a * bound_b) <= a * b <= bound_a * bound_b,
{
}

/// Rounding toward zero never leaves the bound that the numerator kept.
pub proof fn lemma_rescale_within(n: int, bound: int)
    requires
        within(n, bound),
    ensures
        within(rescale(n), bound / 1000),
        within(rescale(n), bound),
{
}

/// Rounding toward zero keeps the sign, and loses less than one step.
pub proof fn lemma_rescale_bracket(n: int)
    ensures
        n >= 0 ==> rescale(n) * 1000 <= n < (rescale(n) + 1) * 1000,
        n <= 0 ==> (rescale(n) - 1) * 1000 < n <= rescale(n) * 1000,
{
}

/// A product of two numbers of one sign is not negative; one of two
/// numbers of different signs is not positive.
pub proof fn lemma_product_sign(a: int, b: int)
    by (nonlinear_arith)
    ensures
        (a >= 0 && b >= 0) || (a <= 0 && b <= 0) ==> a * b >= 0,
        (a >= 0 && b <= 0) || (a <= 0 && b >= 0) ==> a * b <= 0,
{
}

/// The fixed-point product of two numbers has the sign of their product,
/// or is nothing.
pub proof fn lemma_rescaled_product_sign(a: int, b: int)
    ensures
        (a >= 0 && b >= 0) || (a <= 0 && b <= 0) ==> rescale(a * b) >= 0,
        (a >= 0 && b <= 0) || (a <= 0 && b >= 0) ==> rescale(a * b) <= 0,
{
    lemma_product_sign(a, b);
    lemma_rescale_bracket(a * b);
}

/// At most one number is the integer square root of `n`.
pub proof fn lemma_sqrt_floor_unique(n: int, r: int, s: int)
    by (nonlinear_arith)
    requires
        0 <= r && r * r <= n < (r + 1) * (r + 1),
        0 <= s && s * s <= n < (s + 1) * (s + 1),
    ensures
        r == s,
{
    if r < s {
        assert((r + 1) * (r + 1) <= s * s);
    } else if s < r {
        assert((s + 1) * (s + 1) <= r * r);
    }
}

/// Whoever satisfies `is_sqrt_floor` is `sqrt_floor`.
pub proof fn lemma_sqrt_floor_is(n: int, r: int)
    requires
        is_sqrt_floor(n, r),
    ensures
        sqrt_floor(n) == r,
{
    let s = sqrt_floor(n);
    assert(is_sqrt_floor(n, s));
    lemma_sqrt_floor_unique(n, r, s);
}

/// Exact product of two wide integers whose magnitudes are known.
pub(crate) fn wide_mul(a: i128, b: i128, Ghost(bound_a): Ghost<int>, Ghost(bound_b): Ghost<int>) -> (r:
    i128)
    requires
        within(a as int, bound_a),
        within(b as int, bound_b),
        bound_a * bound_b <= i128::MAX,
    ensures
        r == a * b,
        within(r as int, bound_a * bound_b),
{
    proof {
        lemma_product_within(a as int, b as int, bound_a, bound_b);
    }
    a * b
}

/// Division by the scale, rounded toward zero.
pub(crate) fn wide_rescale(n: i128) -> (r: i128)
    ensures
        r == rescale(n as int),
{
    n / 1000
}

/// Fixed-point product of two wide integers whose magnitudes are known.
pub(crate) fn wide_mul_rescale(
    a: i128,
    b: i128,
    Ghost(bound_a): Ghost<int>,
    Ghost(bound_b): Ghost<int>,
) -> (r: i128)
    requires
        within(a as int, bound_a),
        within(b as int, bound_b),
        bound_a * bound_b <= i128::MAX,
    ensures
        r == rescale(a * b),
        within(r as int, bound_a * bound_b / 1000),
{
    let product = wide_mul(a, b, Ghost(bound_a), Ghost(bound_b));
    proof {
        lemma_rescale_within(product as int, bound_a * bound_b);
    }
    wide_rescale(product)
}

/// Quotient rounded toward zero.
pub fn div_toward_zero(n: i64, d: i64) -> (q: i64)
    requires
        d > 0,
    ensures
        q == trunc_div(n as int, d as int),
{
    n / d
}

/// Integer part of the square root.
pub fn isqrt(n: u64) -> (r: u64)
    ensures
        r == sqrt_floor(n as int),
        is_sqrt_floor(n as int, r as int),
{
    let mut low: u64 = 0;
    let mut high: u64 = 0x1_0000_0000;
    assert(0x1_0000_0000int * 0x1_0000_0000int > u64::MAX);
    while high - low > 1
        invariant
            low < high <= 0x1_0000_0000,
            low * low <= n,
            n < high * high,
        decreases high - low,
    {
        let middle: u64 = low + (high - low) / 2;
        assert(middle * middle <= 0xffff_ffff * 0xffff_ffff) by (nonlinear_arith)
            requires
                0 <= middle <= 0xffff_ffff,
        ;
        let square: u64 = middle * middle;
        if square <= n {
            low = middle;
        } else {
            high = middle;
        }
    }
    proof {
        assert(high == low + 1);
        lemma_sqrt_floor_is(n as int, low as int);
    }
    low
}

} // verus!
