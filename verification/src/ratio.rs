//! The mathematical model of scalar values: exact rational numbers,
//! represented in specifications as a quotient of two unbounded integers.
//!
//! Every contract of the library speaks of scalar values through this model.
//! Equality of values is cross-multiplication equality (`rat_eq`), which
//! identifies all pairs that denote the same rational number.

use vstd::math::abs;
use vstd::prelude::*;

verus! {

/// A rational number in specifications: the value `num / den`.
///
/// A value is meaningful only when `den != 0`; stored scalars keep `den > 0`.
pub ghost struct Ratio {
    pub num: int,
    pub den: int,
}

/// Well-formed ratios have a positive denominator.
pub open spec fn rat_wf(a: Ratio) -> bool {
    a.den > 0
}

/// The ratio denoting the integer `n`.
pub open spec fn rat_int(n: int) -> Ratio {
    Ratio { num: n, den: 1 }
}

/// Value equality of two ratios: `a.num / a.den == b.num / b.den`,
/// stated by cross multiplication.
pub open spec fn rat_eq(a: Ratio, b: Ratio) -> bool {
    a.num * b.den == b.num * a.den
}

/// Strict value order of two ratios; meaningful when both denominators are
/// positive.
pub open spec fn rat_lt(a: Ratio, b: Ratio) -> bool {
    a.num * b.den < b.num * a.den
}

/// Exact product of two ratios.
pub open spec fn rat_mul(a: Ratio, b: Ratio) -> Ratio {
    Ratio { num: a.num * b.num, den: a.den * b.den }
}

/// Exact quotient of two ratios. The result is meaningful only when
/// `b.num != 0`; otherwise its denominator is zero.
pub open spec fn rat_div(a: Ratio, b: Ratio) -> Ratio {
    Ratio { num: a.num * b.den, den: a.den * b.num }
}

/// Exact sum of two ratios.
pub open spec fn rat_add(a: Ratio, b: Ratio) -> Ratio {
    Ratio { num: a.num * b.den + b.num * a.den, den: a.den * b.den }
}

/// Exact difference of two ratios.
pub open spec fn rat_sub(a: Ratio, b: Ratio) -> Ratio {
    Ratio { num: a.num * b.den - b.num * a.den, den: a.den * b.den }
}

/// Truncation of a ratio toward zero, as Rust integer division truncates.
/// Meaningful only when `a.den != 0`.
pub open spec fn rat_trunc(a: Ratio) -> int {
    let q = abs(a.num) as int / abs(a.den) as int;
    if (a.num < 0) == (a.den < 0) {
        q
    } else {
        -q
    }
}

/// Truncating an integer ratio gives the integer back.
pub proof fn lemma_rat_trunc_int(n: int)
    ensures
        rat_trunc(rat_int(n)) == n,
{
    vstd::arithmetic::div_mod::lemma_div_basics(abs(n) as int);
}

/// Rust's truncating integer division, case by case, matches `rat_trunc` of
/// the corresponding ratio.
pub proof fn lemma_rat_trunc_cases(a: int, b: int)
    requires
        b != 0,
    ensures
        rat_trunc(Ratio { num: a, den: b }) == (if a == 0 {
            0int
        } else if a > 0 && b > 0 {
            a / b
        } else if a < 0 && b < 0 {
            (a * -1) / (b * -1)
        } else if a < 0 {
            ((a * -1) / b) * -1
        } else {
            (a / (b * -1)) * -1
        }),
{
    if a == 0 {
        vstd::arithmetic::div_mod::lemma_div_of0(abs(b) as int);
    }
}

/// Value equality is symmetric.
pub proof fn lemma_rat_eq_symm(a: Ratio, b: Ratio)
    requires
        rat_eq(a, b),
    ensures
        rat_eq(b, a),
{
}

/// Value equality is transitive across any middle ratio with a nonzero
/// denominator.
pub proof fn lemma_rat_eq_trans(a: Ratio, b: Ratio, c: Ratio)
    requires
        b.den != 0,
        rat_eq(a, b),
        rat_eq(b, c),
    ensures
        rat_eq(a, c),
{
    assert(a.num * c.den == c.num * a.den) by (nonlinear_arith)
        requires
            b.den != 0,
            a.num * b.den == b.num * a.den,
            b.num * c.den == c.num * b.den,
    ;
}

/// Multiplication respects value equality.
pub proof fn lemma_rat_mul_congruence(a: Ratio, b: Ratio, x: Ratio, y: Ratio)
    requires
        rat_eq(a, x),
        rat_eq(b, y),
    ensures
        rat_eq(rat_mul(a, b), rat_mul(x, y)),
{
    assert((a.num * b.num) * (x.den * y.den) == (x.num * y.num) * (a.den * b.den))
        by (nonlinear_arith)
        requires
            a.num * x.den == x.num * a.den,
            b.num * y.den == y.num * b.den,
    ;
}

/// Addition respects value equality.
pub proof fn lemma_rat_add_congruence(a: Ratio, b: Ratio, x: Ratio, y: Ratio)
    requires
        rat_eq(a, x),
        rat_eq(b, y),
    ensures
        rat_eq(rat_add(a, b), rat_add(x, y)),
{
    assert((a.num * b.den) * (x.den * y.den) == (x.num * y.den) * (a.den * b.den))
        by (nonlinear_arith)
        requires
            a.num * x.den == x.num * a.den,
    ;
    assert((b.num * a.den) * (x.den * y.den) == (y.num * x.den) * (a.den * b.den))
        by (nonlinear_arith)
        requires
            b.num * y.den == y.num * b.den,
    ;
    assert((a.num * b.den + b.num * a.den) * (x.den * y.den) == (x.num * y.den + y.num
        * x.den) * (a.den * b.den)) by (nonlinear_arith)
        requires
            (a.num * b.den) * (x.den * y.den) == (x.num * y.den) * (a.den * b.den),
            (b.num * a.den) * (x.den * y.den) == (y.num * x.den) * (a.den * b.den),
    ;
}

/// Subtraction respects value equality.
pub proof fn lemma_rat_sub_congruence(a: Ratio, b: Ratio, x: Ratio, y: Ratio)
    requires
        rat_eq(a, x),
        rat_eq(b, y),
    ensures
        rat_eq(rat_sub(a, b), rat_sub(x, y)),
{
    assert((a.num * b.den) * (x.den * y.den) == (x.num * y.den) * (a.den * b.den))
        by (nonlinear_arith)
        requires
            a.num * x.den == x.num * a.den,
    ;
    assert((b.num * a.den) * (x.den * y.den) == (y.num * x.den) * (a.den * b.den))
        by (nonlinear_arith)
        requires
            b.num * y.den == y.num * b.den,
    ;
    assert((a.num * b.den - b.num * a.den) * (x.den * y.den) == (x.num * y.den - y.num
        * x.den) * (a.den * b.den)) by (nonlinear_arith)
        requires
            (a.num * b.den) * (x.den * y.den) == (x.num * y.den) * (a.den * b.den),
            (b.num * a.den) * (x.den * y.den) == (y.num * x.den) * (a.den * b.den),
    ;
}

/// Division respects value equality.
pub proof fn lemma_rat_div_congruence(a: Ratio, b: Ratio, x: Ratio, y: Ratio)
    requires
        rat_eq(a, x),
        rat_eq(b, y),
    ensures
        rat_eq(rat_div(a, b), rat_div(x, y)),
{
    assert((a.num * b.den) * (x.den * y.num) == (x.num * y.den) * (a.den * b.num))
        by (nonlinear_arith)
        requires
            a.num * x.den == x.num * a.den,
            b.num * y.den == y.num * b.den,
    ;
}

/// Multiplying by a nonzero ratio and dividing by it again restores the
/// original value.
pub proof fn lemma_rat_mul_div_inverse(v: Ratio, s: Ratio)
    requires
        s.num != 0,
        s.den != 0,
    ensures
        rat_eq(rat_div(rat_mul(v, s), s), v),
{
    assert(((v.num * s.num) * s.den) * v.den == v.num * ((v.den * s.den) * s.num))
        by (nonlinear_arith);
}

/// Dividing by a nonzero ratio and multiplying by it again restores the
/// original value.
pub proof fn lemma_rat_div_mul_inverse(v: Ratio, s: Ratio)
    requires
        s.num != 0,
        s.den != 0,
    ensures
        rat_eq(rat_mul(rat_div(v, s), s), v),
{
    assert(((v.num * s.den) * s.num) * v.den == v.num * ((v.den * s.num) * s.den))
        by (nonlinear_arith);
}

/// Adding a ratio and subtracting it again restores the original value.
pub proof fn lemma_rat_add_sub_inverse(v: Ratio, b: Ratio)
    requires
        b.den != 0,
    ensures
        rat_eq(rat_sub(rat_add(v, b), b), v),
{
    assert(((v.num * b.den + b.num * v.den) * b.den - b.num * (v.den * b.den)) * v.den
        == v.num * ((v.den * b.den) * b.den)) by (nonlinear_arith);
}

/// Subtracting a ratio and adding it again restores the original value.
pub proof fn lemma_rat_sub_add_inverse(v: Ratio, b: Ratio)
    requires
        b.den != 0,
    ensures
        rat_eq(rat_add(rat_sub(v, b), b), v),
{
    assert(((v.num * b.den - b.num * v.den) * b.den + b.num * (v.den * b.den)) * v.den
        == v.num * ((v.den * b.den) * b.den)) by (nonlinear_arith);
}

/// Multiplying by the ratio one keeps the value.
pub proof fn lemma_rat_mul_one(v: Ratio, s: Ratio)
    requires
        rat_eq(s, rat_int(1)),
    ensures
        rat_eq(rat_mul(v, s), v),
{
    assert((v.num * s.num) * v.den == v.num * (v.den * s.den)) by (nonlinear_arith)
        requires
            s.num * 1 == 1 * s.den,
    ;
}

/// Dividing by the ratio one keeps the value.
pub proof fn lemma_rat_div_one(v: Ratio, s: Ratio)
    requires
        rat_eq(s, rat_int(1)),
    ensures
        rat_eq(rat_div(v, s), v),
{
    assert((v.num * s.den) * v.den == v.num * (v.den * s.num)) by (nonlinear_arith)
        requires
            s.num * 1 == 1 * s.den,
    ;
}

/// Adding the ratio zero keeps the value.
pub proof fn lemma_rat_add_zero(v: Ratio, b: Ratio)
    requires
        rat_eq(b, rat_int(0)),
        b.den != 0,
    ensures
        rat_eq(rat_add(v, b), v),
{
    assert((v.num * b.den + b.num * v.den) * v.den == v.num * (v.den * b.den))
        by (nonlinear_arith)
        requires
            b.num * 1 == 0 * b.den,
    ;
}

/// Subtracting the ratio zero keeps the value.
pub proof fn lemma_rat_sub_zero(v: Ratio, b: Ratio)
    requires
        rat_eq(b, rat_int(0)),
        b.den != 0,
    ensures
        rat_eq(rat_sub(v, b), v),
{
    assert((v.num * b.den - b.num * v.den) * v.den == v.num * (v.den * b.den))
        by (nonlinear_arith)
        requires
            b.num * 1 == 0 * b.den,
    ;
}

} // verus!
