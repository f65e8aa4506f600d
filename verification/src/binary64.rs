//! Integer models of the 64-bit floating-point arithmetic the tooling relies
//! on: converting a byte count to `f64`, and dividing with correct rounding.
use vstd::prelude::*;

verus! {

/// The smallest power of two `unit` (starting from `unit`, doubling at most
/// `steps` times) for which `b` is below 2^53 units: the spacing of the
/// 64-bit floating-point numbers near `b`.
pub open spec fn grain(b: nat, unit: nat, steps: nat) -> nat
    decreases steps,
{
    if steps == 0 || b < 9007199254740992 * unit {
        unit
    } else {
        grain(b, unit * 2, (steps - 1) as nat)
    }
}

/// `n / d` rounded to the nearest integer, ties to the even one.
pub open spec fn round_half_even(n: nat, d: nat) -> nat {
    let q = n / d;
    let r = n % d;
    if 2 * r > d || (2 * r == d && q % 2 == 1) {
        q + 1
    } else {
        q
    }
}

/// The 64-bit floating-point number nearest to `b` (ties to even), which is
/// what converting a `u64` to `f64` gives.
pub open spec fn nearest_double(b: nat) -> nat {
    let unit = grain(b, 1, 11);
    round_half_even(b, unit) * unit
}

/// Two to the power `e`.
pub open spec fn pow2_nat(e: nat) -> nat
    decreases e,
{
    if e == 0 {
        1
    } else {
        2 * pow2_nat((e - 1) as nat)
    }
}

proof fn lemma_pow2_positive(e: nat)
    ensures
        pow2_nat(e) >= 1,
    decreases e,
{
    if e > 0 {
        lemma_pow2_positive((e - 1) as nat);
    }
}

proof fn lemma_pow2_11()
    ensures
        pow2_nat(11) == 2048,
{
    reveal_with_fuel(pow2_nat, 12);
}

/// Rounds `n / d` to the nearest integer, ties to even.
pub(crate) fn divide_rounding(n: u128, d: u128) -> (q: u128)
    requires
        1 <= d <= 0x1_0000_0000_0000_0000,
        n < 0x8000_0000_0000_0000_0000_0000_0000_0000,
    ensures
        q == round_half_even(n as nat, d as nat),
        q <= n / d + 1,
{
    let q = n / d;
    let r = n % d;
    if 2 * r > d || (2 * r == d && q % 2 == 1) {
        q + 1
    } else {
        q
    }
}

/// The floating-point value nearest to `bytes`, as an integer.
pub(crate) fn to_nearest_double(bytes: u64) -> (x: u128)
    ensures
        x == nearest_double(bytes as nat),
        x <= 18446744073709551616 + 2048,
{
    let b = bytes as u128;
    let mut unit: u128 = 1;
    let mut steps: u128 = 11;
    proof {
        lemma_pow2_11();
    }
    while steps > 0 && b >= 9007199254740992 * unit
        invariant
            1 <= unit <= 2048,
            steps <= 11,
            unit * pow2_nat(steps as nat) == 2048,
            b < 18446744073709551616,
            grain(b as nat, 1, 11) == grain(b as nat, unit as nat, steps as nat),
        decreases steps,
    {
        proof {
            let p = pow2_nat((steps - 1) as nat);
            lemma_pow2_positive((steps - 1) as nat);
            assert(pow2_nat(steps as nat) == 2 * p);
            assert((unit * 2) * p == 2048 && unit * 2 <= 2048) by (nonlinear_arith)
                requires
                    unit * (2 * p) == 2048,
                    p >= 1,
                    unit >= 1,
            ;
        }
        unit = unit * 2;
        steps = steps - 1;
    }
    if steps == 0 {
        assert(pow2_nat(steps as nat) == 1);
        assert(unit * 1 == 2048);
    }
    assert(b < 9007199254740992 * unit);
    let q = divide_rounding(b, unit);
    proof {
        vstd::arithmetic::div_mod::lemma_fundamental_div_mod(b as int, unit as int);
        assert(q * unit <= b + unit) by (nonlinear_arith)
            requires
                q <= b / unit + 1,
                b == unit * (b / unit) + b % unit,
                b % unit >= 0,
                unit >= 1,
        ;
    }
    q * unit
}


/// The number of fraction bits of the 64-bit floating-point numbers near
/// `n / d`, searching upwards from `j`: the largest number of bits, at most
/// 1074, for which `n * 2^bits` stays below `2^53 * d`. For a quotient below
/// 2^53 the representable numbers near it are the multiples of `2^-bits`.
pub open spec fn fraction_bits(n: nat, d: nat, j: nat) -> nat
    decreases 1074 - j,
{
    if j >= 1074 || n * pow2_nat(j + 1) >= 9007199254740992 * d {
        j
    } else {
        fraction_bits(n, d, j + 1)
    }
}

/// The whole part of the 64-bit floating-point number nearest to `n / d`
/// (ties to even), for a quotient below 2^53: what flooring a correctly
/// rounded `f64` division gives.
pub open spec fn floor_of_rounded_quotient(n: nat, d: nat) -> nat {
    let j = fraction_bits(n, d, 0);
    round_half_even(n * pow2_nat(j), d) / pow2_nat(j)
}

/// The whole part of the `f64` nearest to `n / d`.
pub(crate) fn floor_rounded_quotient(n: u128, d: u128) -> (q: u128)
    requires
        1 <= d <= 0x2_0000_0000,
        n < 9007199254740992 * d,
    ensures
        q == floor_of_rounded_quotient(n as nat, d as nat),
        q <= 9007199254740992,
{
    if n == 0 {
        proof {
            let j = fraction_bits(0, d as nat, 0);
            assert(0 * pow2_nat(j) == 0);
            lemma_pow2_positive(j);
        }
        return 0;
    }
    let mut scaled: u128 = n;
    let mut pow: u128 = 1;
    let mut j: u128 = 0;
    assert(pow2_nat(0) == 1);
    while j < 1074 && 2 * scaled < 9007199254740992 * d
        invariant
            1 <= n,
            1 <= d <= 0x2_0000_0000,
            j <= 1074,
            pow == pow2_nat(j as nat),
            scaled == n * pow2_nat(j as nat),
            1 <= pow <= scaled,
            scaled < 9007199254740992 * d,
            fraction_bits(n as nat, d as nat, 0) == fraction_bits(n as nat, d as nat, j as nat),
        decreases 1074 - j,
    {
        proof {
            let p = pow2_nat(j as nat);
            assert(pow2_nat((j + 1) as nat) == 2 * p);
            assert(n * (2 * p) == 2 * (n * p)) by (nonlinear_arith);
        }
        scaled = 2 * scaled;
        pow = 2 * pow;
        j = j + 1;
    }
    proof {
        let p = pow2_nat(j as nat);
        assert(pow2_nat((j + 1) as nat) == 2 * p);
        assert(n * (2 * p) == 2 * (n * p)) by (nonlinear_arith);
    }
    assert(fraction_bits(n as nat, d as nat, j as nat) == j);
    let k = divide_rounding(scaled, d);
    proof {
        lemma_quotient_below(scaled as nat, d as nat, 9007199254740992);
        vstd::arithmetic::div_mod::lemma_div_is_ordered_by_denominator(k as int, 1, pow as int);
    }
    k / pow
}

/// Two to the power `a + b` is the product of the two powers.
proof fn lemma_pow2_adds(a: nat, b: nat)
    ensures
        pow2_nat(a + b) == pow2_nat(a) * pow2_nat(b),
    decreases a,
{
    if a > 0 {
        let c = (a - 1) as nat;
        lemma_pow2_adds(c, b);
        assert(pow2_nat(a + b) == 2 * pow2_nat(c + b));
        assert(pow2_nat(a) == 2 * pow2_nat(c));
        vstd::arithmetic::mul::lemma_mul_is_associative(2, pow2_nat(c) as int, pow2_nat(b) as int);
    } else {
        assert(pow2_nat(a) == 1);
    }
}

/// A quotient below `m` when the dividend is below `m` divisors.
proof fn lemma_quotient_below(n: nat, d: nat, m: nat)
    requires
        d >= 1,
        n < m * d,
    ensures
        n / d < m,
{
    let q = n / d;
    vstd::arithmetic::div_mod::lemma_fundamental_div_mod(n as int, d as int);
    assert(q < m) by (nonlinear_arith)
        requires
            n == d * q + n % d,
            n % d >= 0,
            n < m * d,
            d >= 1,
    ;
}

/// A quotient at least `m` when the dividend holds `m` divisors.
proof fn lemma_quotient_at_least(n: nat, d: nat, m: nat)
    requires
        d >= 1,
        m * d <= n,
    ensures
        m <= n / d,
{
    assert(m * d == d * m) by (nonlinear_arith);
    vstd::arithmetic::div_mod::lemma_div_is_ordered((d * m) as int, n as int, d as int);
    vstd::arithmetic::div_mod::lemma_div_multiples_vanish(m as int, d as int);
}

/// Rounding to the nearest integer never goes down as the dividend grows.
proof fn lemma_round_half_even_monotone(n1: nat, n2: nat, d: nat)
    requires
        n1 <= n2,
        d >= 1,
    ensures
        round_half_even(n1, d) <= round_half_even(n2, d),
{
    vstd::arithmetic::div_mod::lemma_div_is_ordered(n1 as int, n2 as int, d as int);
    if n1 / d == n2 / d {
        vstd::arithmetic::div_mod::lemma_fundamental_div_mod(n1 as int, d as int);
        vstd::arithmetic::div_mod::lemma_fundamental_div_mod(n2 as int, d as int);
        assert(n1 % d <= n2 % d);
    }
}

/// What the search for the fraction bits ends on: at least where it began,
/// stopped by the limit or by the bound, and still under the bound if it
/// began under it.
proof fn lemma_fraction_bits_stop(n: nat, d: nat, j: nat)
    ensures
        fraction_bits(n, d, j) >= j,
        j <= 1074 ==> fraction_bits(n, d, j) <= 1074,
        fraction_bits(n, d, j) >= 1074 || n * pow2_nat(fraction_bits(n, d, j) + 1) >= 9007199254740992 * d,
        n * pow2_nat(j) < 9007199254740992 * d ==> n * pow2_nat(fraction_bits(n, d, j)) < 9007199254740992 * d,
    decreases 1074 - j,
{
    if !(j >= 1074 || n * pow2_nat(j + 1) >= 9007199254740992 * d) {
        lemma_fraction_bits_stop(n, d, j + 1);
    }
}

/// A larger dividend has no more fraction bits.
proof fn lemma_fraction_bits_antitone(n1: nat, n2: nat, d: nat, j: nat)
    requires
        n1 <= n2,
    ensures
        fraction_bits(n2, d, j) <= fraction_bits(n1, d, j),
    decreases 1074 - j,
{
    if j < 1074 {
        vstd::arithmetic::mul::lemma_mul_inequality(n1 as int, n2 as int, pow2_nat(j + 1) as int);
        if n1 * pow2_nat(j + 1) < 9007199254740992 * d {
            if n2 * pow2_nat(j + 1) >= 9007199254740992 * d {
                lemma_fraction_bits_stop(n1, d, j + 1);
            } else {
                lemma_fraction_bits_antitone(n1, n2, d, j + 1);
            }
        }
    }
}

/// The whole part of a correctly rounded quotient never goes down as the
/// dividend grows.
pub proof fn lemma_floor_of_rounded_quotient_monotone(n1: nat, n2: nat, d: nat)
    requires
        n1 <= n2,
        1 <= d,
        n2 < 9007199254740992 * d,
    ensures
        floor_of_rounded_quotient(n1, d) <= floor_of_rounded_quotient(n2, d),
{
    let j1 = fraction_bits(n1, d, 0);
    let j2 = fraction_bits(n2, d, 0);
    lemma_fraction_bits_antitone(n1, n2, d, 0);
    lemma_fraction_bits_stop(n1, d, 0);
    lemma_fraction_bits_stop(n2, d, 0);
    assert(pow2_nat(0) == 1);
    let p1 = pow2_nat(j1);
    let p2 = pow2_nat(j2);
    lemma_pow2_positive(j1);
    lemma_pow2_positive(j2);
    let a1 = round_half_even(n1 * p1, d);
    let a2 = round_half_even(n2 * p2, d);
    if j1 == j2 {
        vstd::arithmetic::mul::lemma_mul_inequality(n1 as int, n2 as int, p1 as int);
        lemma_round_half_even_monotone(n1 * p1, n2 * p1, d);
        vstd::arithmetic::div_mod::lemma_div_is_ordered(a1 as int, a2 as int, p1 as int);
    } else {
        let k = (j1 - j2) as nat;
        lemma_pow2_adds(k, j2);
        assert(k + j2 == j1);
        let pk = pow2_nat(k);
        lemma_pow2_positive((k - 1) as nat);
        assert(pk == 2 * pow2_nat((k - 1) as nat));
        // The smaller dividend rounds to at most 2^53 units of its grid.
        lemma_quotient_below(n1 * p1, d, 9007199254740992);
        // The larger one reaches the next binade: at least 2^52 units.
        assert(pow2_nat(j2 + 1) == 2 * p2);
        assert(n2 * (2 * p2) == 2 * (n2 * p2)) by (nonlinear_arith);
        assert(j2 < 1074);
        assert(4503599627370496 * d <= n2 * p2);
        lemma_quotient_at_least(n2 * p2, d, 4503599627370496);
        vstd::arithmetic::div_mod::lemma_div_is_ordered_by_denominator(a1 as int, 2, pk as int);
        assert(a1 / pk <= a2);
        vstd::arithmetic::div_mod::lemma_div_denominator(a1 as int, pk as int, p2 as int);
        vstd::arithmetic::div_mod::lemma_div_is_ordered((a1 / pk) as int, a2 as int, p2 as int);
    }
}

/// The smallest power of two `unit` reached: at least `unit`, with the value
/// under 2^53 units unless the doublings ran out, and either `unit` itself or
/// a grain the value holds 2^52 times.
proof fn lemma_grain_stop(b: nat, unit: nat, steps: nat)
    requires
        unit >= 1,
    ensures
        grain(b, unit, steps) >= unit,
        b < 9007199254740992 * unit * pow2_nat(steps) ==> b < 9007199254740992 * grain(b, unit, steps),
        grain(b, unit, steps) == unit || 4503599627370496 * grain(b, unit, steps) <= b,
    decreases steps,
{
    if !(steps == 0 || b < 9007199254740992 * unit) {
        let s = (steps - 1) as nat;
        lemma_grain_stop(b, unit * 2, s);
        assert(pow2_nat(steps) == 2 * pow2_nat(s));
        assert(9007199254740992 * unit * pow2_nat(steps) == 9007199254740992 * (unit * 2) * pow2_nat(s))
            by (nonlinear_arith)
            requires
                pow2_nat(steps) == 2 * pow2_nat(s),
        ;
    } else if steps == 0 {
        assert(pow2_nat(0) == 1);
    }
}

/// A larger value has a grain at least as coarse; where the grains differ,
/// the larger one is at least twice the smaller.
proof fn lemma_grain_monotone(b1: nat, b2: nat, unit: nat, steps: nat)
    requires
        b1 <= b2,
        unit >= 1,
    ensures
        grain(b1, unit, steps) == grain(b2, unit, steps)
            || 2 * grain(b1, unit, steps) <= grain(b2, unit, steps),
    decreases steps,
{
    if steps > 0 && b2 >= 9007199254740992 * unit {
        let s = (steps - 1) as nat;
        if b1 >= 9007199254740992 * unit {
            lemma_grain_monotone(b1, b2, unit * 2, s);
        } else {
            lemma_grain_stop(b2, unit * 2, s);
        }
    }
}

/// Converting a larger integer to `f64` never gives a smaller number.
pub proof fn lemma_nearest_double_monotone(b1: nat, b2: nat)
    requires
        b1 <= b2 < 18446744073709551616,
    ensures
        nearest_double(b1) <= nearest_double(b2),
        nearest_double(b2) <= 18446744073709551616,
{
    let g1 = grain(b1, 1, 11);
    let g2 = grain(b2, 1, 11);
    lemma_pow2_11();
    lemma_grain_stop(b1, 1, 11);
    lemma_grain_stop(b2, 1, 11);
    lemma_grain_monotone(b1, b2, 1, 11);
    let r1 = round_half_even(b1, g1);
    let r2 = round_half_even(b2, g2);
    lemma_quotient_below(b1, g1, 9007199254740992);
    lemma_quotient_below(b2, g2, 9007199254740992);
    assert(g2 <= 2048) by {
        lemma_grain_bounded(b2, 1, 11);
    }
    assert(r2 * g2 <= 9007199254740992 * 2048) by (nonlinear_arith)
        requires
            r2 <= 9007199254740992,
            g2 <= 2048,
    ;
    if g1 == g2 {
        lemma_round_half_even_monotone(b1, b2, g1);
        vstd::arithmetic::mul::lemma_mul_inequality(r1 as int, r2 as int, g1 as int);
    } else {
        lemma_quotient_at_least(b2, g2, 4503599627370496);
        assert(r1 * g1 <= r2 * g2) by (nonlinear_arith)
            requires
                r1 <= 9007199254740992,
                r2 >= 4503599627370496,
                2 * g1 <= g2,
                g1 >= 1,
        ;
    }
}

/// The grain never exceeds `unit` doubled `steps` times.
proof fn lemma_grain_bounded(b: nat, unit: nat, steps: nat)
    requires
        unit >= 1,
    ensures
        grain(b, unit, steps) <= unit * pow2_nat(steps),
    decreases steps,
{
    lemma_pow2_positive(steps);
    if !(steps == 0 || b < 9007199254740992 * unit) {
        let s = (steps - 1) as nat;
        lemma_grain_bounded(b, unit * 2, s);
        assert(pow2_nat(steps) == 2 * pow2_nat(s));
        assert((unit * 2) * pow2_nat(s) == unit * pow2_nat(steps)) by (nonlinear_arith)
            requires
                pow2_nat(steps) == 2 * pow2_nat(s),
        ;
    } else {
        assert(unit <= unit * pow2_nat(steps)) by (nonlinear_arith)
            requires
                pow2_nat(steps) >= 1,
        ;
    }
}

/// The whole part of a correctly rounded quotient is the exact quotient's
/// whole part, or one more.
pub proof fn lemma_floor_of_rounded_quotient_bounds(n: nat, d: nat)
    requires
        1 <= d,
        n < 9007199254740992 * d,
    ensures
        n / d <= floor_of_rounded_quotient(n, d) <= n / d + 1,
{
    let j = fraction_bits(n, d, 0);
    let p = pow2_nat(j);
    lemma_pow2_positive(j);
    let q = n / d;
    let r = n % d;
    vstd::arithmetic::div_mod::lemma_fundamental_div_mod(n as int, d as int);
    let m = n * p;
    assert(m == d * (q * p) + r * p && r * p < d * p && r * p >= 0) by (nonlinear_arith)
        requires
            n == d * q + r,
            m == n * p,
            0 <= r < d,
            p >= 1,
    ;
    // The scaled quotient lies in [q * p, (q + 1) * p).
    assert((q * p) * d <= m && m < ((q + 1) * p) * d) by (nonlinear_arith)
        requires
            m == d * (q * p) + r * p,
            r * p < d * p,
            r * p >= 0,
    ;
    lemma_quotient_at_least(m, d, q * p);
    lemma_quotient_below(m, d, (q + 1) * p);
    let a = round_half_even(m, d);
    assert(q * p <= a <= (q + 1) * p);
    vstd::arithmetic::div_mod::lemma_div_is_ordered((q * p) as int, a as int, p as int);
    vstd::arithmetic::div_mod::lemma_div_is_ordered(a as int, ((q + 1) * p) as int, p as int);
    vstd::arithmetic::div_mod::lemma_div_multiples_vanish(q as int, p as int);
    vstd::arithmetic::div_mod::lemma_div_multiples_vanish((q + 1) as int, p as int);
    assert(p * q == q * p && p * (q + 1) == (q + 1) * p) by (nonlinear_arith);
}

/// A quotient below one rounds up to one only from at least one half.
proof fn lemma_rounds_to_one_from_half(n: nat, d: nat)
    requires
        1 <= d,
        n < d,
        floor_of_rounded_quotient(n, d) >= 1,
    ensures
        d <= 2 * n,
{
    let j = fraction_bits(n, d, 0);
    let p = pow2_nat(j);
    lemma_pow2_positive(j);
    // No fraction bits only if 2n reached 2^53 d, which n < d rules out.
    assert(pow2_nat(1) == 2) by {
        assert(pow2_nat(0) == 1);
    }
    assert(fraction_bits(n, d, 0) == fraction_bits(n, d, 1));
    lemma_fraction_bits_stop(n, d, 1);
    assert(j >= 1);
    assert(p >= 2) by {
        lemma_pow2_positive((j - 1) as nat);
        assert(pow2_nat(j) == 2 * pow2_nat((j - 1) as nat));
    }
    let m = n * p;
    let a = round_half_even(m, d);
    if 2 * n < d {
        // Then m / d < p / 2, so the rounded value stays below p.
        assert(2 * m < d * p) by (nonlinear_arith)
            requires
                2 * n < d,
                m == n * p,
                p >= 1,
        ;
        vstd::arithmetic::div_mod::lemma_fundamental_div_mod(m as int, d as int);
        let q = m / d;
        assert(2 * q + 2 <= p) by (nonlinear_arith)
            requires
                m == d * q + m % d,
                m % d >= 0,
                2 * m < d * p,
                d >= 1,
                p % 2 == 0,
        ;
        assert(a < p);
        vstd::arithmetic::div_mod::lemma_fundamental_div_mod_converse_div(a as int, p as int, 0, a as int);
    }
}

/// Halving the divisor never gives a smaller whole part: the rounded
/// quotient by `2d` is at most the one by `d`.
pub proof fn lemma_floor_of_rounded_quotient_halved_divisor(n: nat, d: nat)
    requires
        1 <= d,
        n < 9007199254740992 * d,
    ensures
        floor_of_rounded_quotient(n, 2 * d) <= floor_of_rounded_quotient(n, d),
{
    lemma_floor_of_rounded_quotient_bounds(n, d);
    lemma_floor_of_rounded_quotient_bounds(n, 2 * d);
    vstd::arithmetic::div_mod::lemma_div_denominator(n as int, d as int, 2);
    let q1 = n / d;
    let q2 = n / (2 * d);
    assert(q2 == q1 / 2) by {
        assert(d * 2 == 2 * d);
    }
    if q2 == 0 && floor_of_rounded_quotient(n, 2 * d) >= 1 {
        vstd::arithmetic::div_mod::lemma_fundamental_div_mod(n as int, (2 * d) as int);
        lemma_rounds_to_one_from_half(n, 2 * d);
        lemma_quotient_at_least(n, d, 1);
    }
}

} // verus!
