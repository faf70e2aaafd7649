//! Greatest common divisors and the canonical form of a ratio.
//!
//! The executable scalar stores every value in lowest terms with a positive
//! denominator. This module defines that canonical form (`reduced`) and proves
//! it unique: two well-formed ratios denote the same value exactly when their
//! canonical forms are identical.

use vstd::arithmetic::div_mod::{
    lemma_fundamental_div_mod, lemma_fundamental_div_mod_converse,
};
use vstd::arithmetic::mul::lemma_mul_is_commutative;
use vstd::math::abs;
use vstd::prelude::*;

use crate::ratio::{rat_eq, rat_wf, Ratio};

verus! {

/// `d` divides `n`: some integer multiple of `d` equals `n`.
pub open spec fn divides(d: int, n: int) -> bool {
    exists|k: int| n == #[trigger] (d * k)
}

/// The greatest common divisor, by Euclid's recursion.
pub open spec fn gcd(a: nat, b: nat) -> nat
    decreases b,
{
    if b == 0 {
        a
    } else {
        gcd(b, a % b)
    }
}

/// Anything divides zero.
proof fn lemma_divides_zero(d: int)
    ensures
        divides(d, 0),
{
    assert(0int == d * 0);
}

/// Everything divides itself.
proof fn lemma_divides_self(d: int)
    ensures
        divides(d, d),
{
    assert(d == d * 1);
}

/// The gcd divides both of its arguments.
pub proof fn lemma_gcd_divides(a: nat, b: nat)
    ensures
        divides(gcd(a, b) as int, a as int),
        divides(gcd(a, b) as int, b as int),
    decreases b,
{
    if b == 0 {
        lemma_divides_self(a as int);
        lemma_divides_zero(a as int);
    } else {
        lemma_gcd_divides(b, a % b);
        let g = gcd(b, a % b) as int;
        let k1 = choose|k: int| b as int == #[trigger] (g * k);
        let k2 = choose|k: int| (a % b) as int == #[trigger] (g * k);
        lemma_fundamental_div_mod(a as int, b as int);
        assert(a as int == b as int * (a as int / b as int) + (a as int % b as int));
        let q = a as int / b as int;
        assert(a as int == g * (k1 * q + k2)) by (nonlinear_arith)
            requires
                a as int == b as int * q + (a as int % b as int),
                b as int == g * k1,
                (a % b) as int == g * k2,
        ;
    }
}

/// Any common divisor of the two arguments divides their gcd.
pub proof fn lemma_divides_gcd(d: int, a: nat, b: nat)
    requires
        divides(d, a as int),
        divides(d, b as int),
    ensures
        divides(d, gcd(a, b) as int),
    decreases b,
{
    if b == 0 {
    } else {
        let ka = choose|k: int| a as int == #[trigger] (d * k);
        let kb = choose|k: int| b as int == #[trigger] (d * k);
        lemma_fundamental_div_mod(a as int, b as int);
        let q = a as int / b as int;
        assert((a % b) as int == d * (ka - kb * q)) by (nonlinear_arith)
            requires
                a as int == b as int * q + (a as int % b as int),
                a as int == d * ka,
                b as int == d * kb,
        ;
        lemma_divides_gcd(d, b, a % b);
    }
}

/// The gcd is positive unless both arguments are zero.
pub proof fn lemma_gcd_pos(a: nat, b: nat)
    ensures
        gcd(a, b) == 0 <==> a == 0 && b == 0,
    decreases b,
{
    if b != 0 {
        lemma_gcd_pos(b, a % b);
    }
}

/// One is coprime to everything.
pub proof fn lemma_gcd_one(a: nat)
    ensures
        gcd(a, 1) == 1,
{
    assert(a % 1 == 0);
    assert(gcd(1, 0) == 1);
}

/// Dividing a multiple of `d` by `d` recovers the cofactor exactly.
pub proof fn lemma_div_exact(d: int, n: int)
    requires
        d > 0,
        divides(d, n),
    ensures
        n == d * (n / d),
{
    let k = choose|k: int| n == #[trigger] (d * k);
    lemma_mul_is_commutative(d, k);
    lemma_fundamental_div_mod_converse(n, d, k, 0);
}

/// `g == a*x + b*y` for the Bezout witnesses `x`, `y`.
pub open spec fn linear_comb(g: int, a: int, b: int, x: int, y: int) -> bool {
    g == a * x + b * y
}

/// Bezout's identity: the gcd is an integer linear combination of its
/// arguments.
pub proof fn lemma_bezout(a: nat, b: nat)
    ensures
        exists|x: int, y: int| #[trigger] linear_comb(gcd(a, b) as int, a as int, b as int, x, y),
    decreases b,
{
    if b == 0 {
        assert(linear_comb(gcd(a, b) as int, a as int, b as int, 1, 0)) by {
            assert(gcd(a, b) == a);
            assert(a as int == a as int * 1 + b as int * 0);
        }
    } else {
        lemma_bezout(b, a % b);
        let g = gcd(b, a % b) as int;
        let (x2, y2): (int, int) = choose|x: int, y: int|
            #[trigger] linear_comb(g, b as int, (a % b) as int, x, y);
        lemma_fundamental_div_mod(a as int, b as int);
        let q = a as int / b as int;
        assert(g == a as int * y2 + b as int * (x2 - q * y2)) by (nonlinear_arith)
            requires
                g == b as int * x2 + (a % b) as int * y2,
                a as int == b as int * q + (a as int % b as int),
        ;
        assert(linear_comb(gcd(a, b) as int, a as int, b as int, y2, x2 - q * y2));
    }
}

/// Euclid's lemma in gcd form: if `b` is coprime to `a` and divides `a * d`,
/// then `b` divides `d`.
pub proof fn lemma_coprime_divides(a: nat, b: nat, d: int)
    requires
        gcd(a, b) == 1,
        divides(b as int, a as int * d),
    ensures
        divides(b as int, d),
{
    lemma_bezout(a, b);
    let (x, y): (int, int) = choose|x: int, y: int|
        #[trigger] linear_comb(1, a as int, b as int, x, y);
    let k = choose|k: int| a as int * d == #[trigger] (b as int * k);
    assert(d == b as int * (k * x + d * y)) by (nonlinear_arith)
        requires
            1int == a as int * x + b as int * y,
            a as int * d == b as int * k,
    ;
}

/// Two fractions in lowest terms with positive denominators that denote the
/// same value are identical.
pub proof fn lemma_lowest_terms_unique(a: int, b: int, c: int, d: int)
    requires
        b > 0,
        d > 0,
        gcd(abs(a), b as nat) == 1,
        gcd(abs(c), d as nat) == 1,
        a * d == c * b,
    ensures
        a == c,
        b == d,
{
    // b divides |a| * d, and is coprime to |a|, so b divides d.
    assert(abs(a) as int * d == if a >= 0 { c * b } else { (-c) * b }) by (nonlinear_arith)
        requires
            a * d == c * b,
            abs(a) == if a >= 0 { a } else { -a },
    ;
    assert(divides(b, abs(a) as int * d)) by {
        if a >= 0 {
            assert(abs(a) as int * d == b * c) by (nonlinear_arith)
                requires abs(a) as int * d == c * b,
            ;
        } else {
            assert(abs(a) as int * d == b * (-c)) by (nonlinear_arith)
                requires abs(a) as int * d == (-c) * b,
            ;
        }
    }
    lemma_coprime_divides(abs(a), b as nat, d);
    // d divides |c| * b, and is coprime to |c|, so d divides b.
    assert(divides(d, abs(c) as int * b)) by {
        if c >= 0 {
            assert(abs(c) as int * b == d * a) by (nonlinear_arith)
                requires
                    a * d == c * b,
                    abs(c) == c,
            ;
        } else {
            assert(abs(c) as int * b == d * (-a)) by (nonlinear_arith)
                requires
                    a * d == c * b,
                    abs(c) == -c,
            ;
        }
    }
    lemma_coprime_divides(abs(c), d as nat, b);
    // Mutual divisibility of positives forces equality.
    let k1 = choose|k: int| d == #[trigger] (b * k);
    let k2 = choose|k: int| b == #[trigger] (d * k);
    assert(b == d) by (nonlinear_arith)
        requires
            b > 0,
            d > 0,
            d == b * k1,
            b == d * k2,
    ;
    assert(a == c) by (nonlinear_arith)
        requires
            d > 0,
            b == d,
            a * d == c * b,
    ;
}

/// The canonical form of the fraction `n / d`: lowest terms, positive
/// denominator. Meaningful only when `d != 0`.
pub open spec fn reduced(n: int, d: int) -> Ratio {
    let g = gcd(abs(n), abs(d)) as int;
    Ratio {
        num: if (n < 0) == (d < 0) {
            abs(n) as int / g
        } else {
            -(abs(n) as int / g)
        },
        den: abs(d) as int / g,
    }
}

/// The canonical form is well formed and in lowest terms.
pub proof fn lemma_reduced_wf(n: int, d: int)
    requires
        d != 0,
    ensures
        rat_wf(reduced(n, d)),
        gcd(abs(reduced(n, d).num), reduced(n, d).den as nat) == 1,
        reduced(n, d).num == 0 <==> n == 0,
{
    let g = gcd(abs(n), abs(d)) as int;
    lemma_gcd_pos(abs(n), abs(d));
    lemma_gcd_divides(abs(n), abs(d));
    lemma_div_exact(g, abs(n) as int);
    lemma_div_exact(g, abs(d) as int);
    let nh = abs(n) as int / g;
    let dh = abs(d) as int / g;
    assert(dh > 0) by (nonlinear_arith)
        requires
            g > 0,
            abs(d) as int > 0,
            abs(d) as int == g * dh,
    ;
    assert(nh >= 0) by (nonlinear_arith)
        requires
            g > 0,
            abs(n) as int >= 0,
            abs(n) as int == g * nh,
    ;
    assert(abs(reduced(n, d).num) == nh as nat);
    // The quotients are coprime: any common divisor, scaled by g, would be a
    // common divisor of |n| and |d| exceeding their gcd.
    let g2 = gcd(nh as nat, dh as nat) as int;
    lemma_gcd_pos(nh as nat, dh as nat);
    lemma_gcd_divides(nh as nat, dh as nat);
    let ka = choose|k: int| nh == #[trigger] (g2 * k);
    let kb = choose|k: int| dh == #[trigger] (g2 * k);
    assert(abs(n) as int == (g * g2) * ka && abs(d) as int == (g * g2) * kb)
        by (nonlinear_arith)
        requires
            abs(n) as int == g * nh,
            abs(d) as int == g * dh,
            nh == g2 * ka,
            dh == g2 * kb,
    ;
    lemma_divides_gcd(g * g2, abs(n), abs(d));
    let k3 = choose|k: int| g == #[trigger] ((g * g2) * k);
    assert(g2 == 1) by (nonlinear_arith)
        requires
            g > 0,
            g2 > 0,
            g == (g * g2) * k3,
    ;
    if reduced(n, d).num == 0 {
        assert(abs(n) as int == g * 0) by (nonlinear_arith)
            requires
                abs(n) as int == g * nh,
                nh == 0,
        ;
    }
}

/// The canonical form denotes the same value as the original fraction.
pub proof fn lemma_reduced_eq(n: int, d: int)
    requires
        d != 0,
    ensures
        rat_eq(reduced(n, d), Ratio { num: n, den: d }),
{
    let g = gcd(abs(n), abs(d)) as int;
    lemma_gcd_pos(abs(n), abs(d));
    lemma_gcd_divides(abs(n), abs(d));
    lemma_div_exact(g, abs(n) as int);
    lemma_div_exact(g, abs(d) as int);
    let nh = abs(n) as int / g;
    let dh = abs(d) as int / g;
    // reduced.num * d == n * reduced.den, by sign analysis over the exact
    // divisions |n| == g * nh and |d| == g * dh.
    if (n < 0) == (d < 0) {
        if n >= 0 {
            assert(nh * d == n * dh) by (nonlinear_arith)
                requires
                    n >= 0,
                    d > 0,
                    n == g * nh,
                    d == g * dh,
                    g > 0,
            ;
        } else {
            assert(nh * d == n * dh) by (nonlinear_arith)
                requires
                    n < 0,
                    d < 0,
                    -n == g * nh,
                    -d == g * dh,
                    g > 0,
            ;
        }
    } else {
        if n >= 0 {
            assert((-nh) * d == n * dh) by (nonlinear_arith)
                requires
                    n >= 0,
                    d < 0,
                    n == g * nh,
                    -d == g * dh,
                    g > 0,
            ;
        } else {
            assert((-nh) * d == n * dh) by (nonlinear_arith)
                requires
                    n < 0,
                    d > 0,
                    -n == g * nh,
                    d == g * dh,
                    g > 0,
            ;
        }
    }
}

/// Canonical forms are unique: value-equal fractions reduce identically.
pub proof fn lemma_reduced_unique(x: Ratio, y: Ratio)
    requires
        x.den != 0,
        y.den != 0,
        rat_eq(x, y),
    ensures
        reduced(x.num, x.den) == reduced(y.num, y.den),
{
    let rx = reduced(x.num, x.den);
    let ry = reduced(y.num, y.den);
    lemma_reduced_wf(x.num, x.den);
    lemma_reduced_wf(y.num, y.den);
    lemma_reduced_eq(x.num, x.den);
    lemma_reduced_eq(y.num, y.den);
    // rx ~ x ~ y ~ ry, so rx ~ ry.
    crate::ratio::lemma_rat_eq_trans(rx, x, y);
    crate::ratio::lemma_rat_eq_symm(ry, y);
    crate::ratio::lemma_rat_eq_trans(rx, y, ry);
    lemma_lowest_terms_unique(rx.num, rx.den, ry.num, ry.den);
}

/// Euclid's algorithm, the executable form of `gcd`.
pub fn gcd_u128(a0: u128, b0: u128) -> (g: u128)
    ensures
        g as nat == gcd(a0 as nat, b0 as nat),
{
    let mut a = a0;
    let mut b = b0;
    while b != 0
        invariant
            gcd(a as nat, b as nat) == gcd(a0 as nat, b0 as nat),
        decreases b,
    {
        let t = a % b;
        a = b;
        b = t;
    }
    a
}

} // verus!
