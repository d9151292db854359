//! What it means for a number of thousandths to be a common logarithm.
//!
//! Nothing here takes a logarithm. The module says, in whole powers alone,
//! when a number handed in does not lie above the logarithm of a fraction,
//! and proves the one fact about the size of ten that the power curve needs.

use vstd::arithmetic::power::{
    lemma_pow0, lemma_pow1, lemma_pow_adds, lemma_pow_distributes, lemma_pow_multiplies,
    lemma_pow_positive, pow,
};
use vstd::prelude::*;

verus! {

/// `log` thousandths are not above the common logarithm of
/// `numerator / denominator`: ten to the power of `log / 1000` is at most
/// the fraction. Both sides are raised to the thousandth power, and the
/// power of ten stands on the side on which its exponent is not negative.
pub open spec fn log_not_above(numerator: int, denominator: int, log: int) -> bool {
    pow(
        10,
        (if log > 0 {
            log
        } else {
            0
        }) as nat,
    ) * pow(denominator, 1000) <= pow(
        10,
        (if log < 0 {
            -log
        } else {
            0
        }) as nat,
    ) * pow(numerator, 1000)
}

/// Of two bases that are not negative, the larger has the larger power.
pub proof fn lemma_pow_grows_with_base(small: int, large: int, exponent: nat)
    requires
        0 <= small <= large,
    ensures
        0 <= pow(small, exponent) <= pow(large, exponent),
        small < large && exponent >= 1 ==> pow(small, exponent) < pow(large, exponent),
    decreases exponent,
{
    reveal(pow);
    if exponent > 0 {
        let before = (exponent - 1) as nat;
        lemma_pow_grows_with_base(small, large, before);
        let s = pow(small, before);
        let l = pow(large, before);
        assert(0 <= small * s <= large * l) by (nonlinear_arith)
            requires
                0 <= small <= large,
                0 <= s <= l,
        ;
        if small < large {
            lemma_pow_positive(large, before);
            assert(small * s < large * l) by (nonlinear_arith)
                requires
                    0 <= small < large,
                    0 <= s <= l,
                    0 < l,
            ;
        }
    }
}

/// Bernoulli's inequality, without fractions: `(1 + q/p)^m` is at least
/// `1 + m q/p`.
pub proof fn lemma_bernoulli(p: int, q: int, m: nat)
    requires
        p > 0,
        q >= 0,
    ensures
        (p + q * m) * pow(p, m) <= p * pow(p + q, m),
    decreases m,
{
    reveal(pow);
    if m > 0 {
        let before = (m - 1) as nat;
        lemma_bernoulli(p, q, before);
        lemma_pow_positive(p, before);
        let u = pow(p, before);
        let t = pow(p + q, before);
        let k = before as int;
        assert((p + q * (k + 1)) * (p * u) <= p * ((p + q) * t)) by (nonlinear_arith)
            requires
                p > 0,
                q >= 0,
                k >= 0,
                u > 0,
                (p + q * k) * u <= p * t,
        {
            assert((p + q) * ((p + q * k) * u) <= (p + q) * (p * t));
            assert((p + q * (k + 1)) * (p * u) + (q * q * k) * u == (p + q) * ((p + q * k) * u));
            assert((q * q * k) * u >= 0);
        }
    }
}

/// A bound on a power carries over to a power of that power: if `a^k` is at
/// most `bound / scale` times `c^k`, and the `j`-th power of `bound / scale`
/// is at most `next / scale`, then `a^(k j)` is at most `next / scale` times
/// `c^(k j)`.
proof fn lemma_bound_of_power(a: int, c: int, k: nat, bound: int, j: nat, next: int, scale: int)
    requires
        a > 0,
        c > 0,
        scale > 0,
        bound >= 0,
        j >= 1,
        pow(a, k) * scale <= bound * pow(c, k),
        pow(bound, j) <= next * pow(scale, (j - 1) as nat),
    ensures
        pow(a, k * j) * scale <= next * pow(c, k * j),
{
    let low = pow(a, k) * scale;
    let high = bound * pow(c, k);
    lemma_pow_positive(a, k);
    lemma_pow_positive(c, k);
    assert(0 <= low) by (nonlinear_arith)
        requires
            low == pow(a, k) * scale,
            pow(a, k) > 0,
            scale > 0,
    ;
    lemma_pow_grows_with_base(low, high, j);
    lemma_pow_distributes(pow(a, k), scale, j);
    lemma_pow_distributes(bound, pow(c, k), j);
    lemma_pow_multiplies(a, k, j);
    lemma_pow_multiplies(c, k, j);
    let rest = pow(scale, (j - 1) as nat);
    lemma_pow_positive(scale, (j - 1) as nat);
    lemma_pow_positive(c, k * j);
    assert(pow(scale, j) == scale * rest) by {
        reveal(pow);
    }
    let big_a = pow(a, k * j);
    let big_c = pow(c, k * j);
    let raised = pow(bound, j);
    assert(big_a * scale <= next * big_c) by (nonlinear_arith)
        requires
            big_a * (scale * rest) <= raised * big_c,
            raised <= next * rest,
            rest > 0,
            big_c > 0,
    {
        assert(raised * big_c <= (next * rest) * big_c);
        assert((big_a * scale) * rest <= (next * big_c) * rest);
    }
}

/// The second power, written out.
proof fn lemma_second_power(b: int)
    ensures
        pow(b, 2) == b * b,
{
    reveal_with_fuel(pow, 3);
}

/// The fifth power, written out.
proof fn lemma_fifth_power(b: int)
    ensures
        pow(b, 5) == b * (b * (b * (b * b))),
{
    reveal_with_fuel(pow, 6);
}

/// The thousandth power of 1.0023 is less than ten: 2.3 thousandths of a
/// step of the natural logarithm stay below the natural logarithm of ten.
pub proof fn lemma_ten_is_large()
    ensures
        pow(10023, 1000) < 10 * pow(10000, 1000),
{
    let scale = 1_000_000_000int;
    lemma_pow1(10023);
    lemma_pow1(10000);
    lemma_pow0(scale);
    lemma_pow1(scale);
    lemma_second_power(scale);
    reveal_with_fuel(pow, 5);
    assert(pow(scale, 4) == scale * (scale * (scale * scale)));
    assert(pow(10023, 1) * scale <= 1_002_300_000 * pow(10000, 1));

    lemma_fifth_power(1_002_300_000);
    lemma_bound_of_power(10023, 10000, 1, 1_002_300_000, 5, 1_011_553_022, scale);
    lemma_fifth_power(1_011_553_022);
    lemma_bound_of_power(10023, 10000, 5, 1_011_553_022, 5, 1_059_115_343, scale);
    lemma_fifth_power(1_059_115_343);
    lemma_bound_of_power(10023, 10000, 25, 1_059_115_343, 5, 1_332_650_596, scale);
    lemma_second_power(1_332_650_596);
    lemma_bound_of_power(10023, 10000, 125, 1_332_650_596, 2, 1_775_957_612, scale);
    lemma_second_power(1_775_957_612);
    lemma_bound_of_power(10023, 10000, 250, 1_775_957_612, 2, 3_154_025_440, scale);
    lemma_second_power(3_154_025_440);
    lemma_bound_of_power(10023, 10000, 500, 3_154_025_440, 2, 9_947_876_477, scale);

    lemma_pow_positive(10000, 1000);
    let top = pow(10000, 1000);
    assert(pow(10023, 1000) < 10 * top) by (nonlinear_arith)
        requires
            pow(10023, 1000) * scale <= 9_947_876_477 * top,
            top > 0,
            scale == 1_000_000_000,
    ;
}

/// How far a logarithm can lie above minus one. Take the fraction
/// `(top + short) / (10 top)`, which is a tenth and a little more. A
/// logarithm that is not above the true one, and lies `above` thousandths
/// above minus one, has `above` at most 10000/23 times `short / top`: less
/// than 435 thousandths for every unit that the fraction, taken tenfold, is
/// above one.
pub proof fn lemma_log_near_minus_one(top: int, short: int, above: nat)
    requires
        top > 0,
        short > 0,
        above <= 1000,
        log_not_above(top + short, 10 * top, above - 1000),
    ensures
        23 * (above * top) <= 10_000 * short,
{
    if above >= 1 && 23 * (above * top) > 10_000 * short {
        let whole = top + short;
        let t = pow(10023, above);
        let u = pow(10000, above);
        lemma_pow_positive(10023, above);
        lemma_pow_positive(10000, above);
        lemma_bernoulli(10000, 23, above);
        assert(0 <= whole * u <= t * top) by (nonlinear_arith)
            requires
                top > 0,
                short > 0,
                whole == top + short,
                u > 0,
                t > 0,
                23 * (above * top) > 10_000 * short,
                (10000 + 23 * above) * u <= 10000 * t,
        {
            assert(10000 * whole <= (10000 + 23 * above) * top);
            assert((10000 * whole) * u <= ((10000 + 23 * above) * top) * u);
            assert(((10000 + 23 * above) * u) * top <= (10000 * t) * top);
        }
        // Both sides to the thousandth power.
        lemma_pow_grows_with_base(whole * u, t * top, 1000);
        lemma_pow_distributes(whole, u, 1000);
        lemma_pow_distributes(t, top, 1000);
        let whole_k = pow(whole, 1000);
        let top_k = pow(top, 1000);
        let u_k = pow(u, 1000);
        let t_k = pow(t, 1000);
        assert(whole_k * u_k <= t_k * top_k);
        // The thousandth power of `t` is below ten to the `above` times that
        // of `u`.
        lemma_ten_is_large();
        lemma_pow_positive(10000, 1000);
        lemma_pow_positive(10023, 1000);
        lemma_pow_grows_with_base(pow(10023, 1000), 10 * pow(10000, 1000), above);
        lemma_pow_distributes(10, pow(10000, 1000), above);
        lemma_pow_multiplies(10023, above, 1000);
        lemma_pow_multiplies(10023, 1000, above);
        lemma_pow_multiplies(10000, above, 1000);
        lemma_pow_multiplies(10000, 1000, above);
        assert(above * 1000 == 1000 * above);
        let ten_m = pow(10, above);
        assert(t_k < ten_m * u_k);
        // What the logarithm promises.
        let ten_rest = pow(10, (1000 - above) as nat);
        lemma_pow0(10);
        lemma_pow_positive(10, above);
        lemma_pow_positive(10, (1000 - above) as nat);
        lemma_pow_positive(u, 1000);
        lemma_pow_positive(top, 1000);
        lemma_pow_distributes(10, top, 1000);
        lemma_pow_adds(10, above, (1000 - above) as nat);
        assert(pow(10, 1000) == ten_m * ten_rest);
        assert(1 * ((ten_m * ten_rest) * top_k) <= ten_rest * whole_k);
        assert(false) by (nonlinear_arith)
            requires
                (ten_m * ten_rest) * top_k <= ten_rest * whole_k,
                whole_k * u_k <= t_k * top_k,
                t_k < ten_m * u_k,
                ten_rest > 0,
                ten_m > 0,
                u_k > 0,
                top_k > 0,
        {
            assert(ten_rest * (ten_m * top_k) <= ten_rest * whole_k);
            assert(ten_m * top_k <= whole_k);
            assert((ten_m * top_k) * u_k <= whole_k * u_k);
            assert(t_k * top_k < (ten_m * u_k) * top_k);
        }
    }
}

} // verus!
