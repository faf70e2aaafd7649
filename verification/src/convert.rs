//! Unit conversions: an invertible affine map between a unit's own scale and
//! the canonical unit of its dimension.
//!
//! A unit whose conversion has a zero offset is *linear*; the canonical unit
//! itself has the identity conversion. Converting a value `v` expressed in the
//! unit to the canonical unit computes `(v + offset) * scale`; reading a
//! canonical value back out computes `v / scale - offset`. The two directions
//! are exact mutual inverses whenever the scale is nonzero.

use vstd::prelude::*;

use crate::ratio::{
    lemma_rat_add_congruence, lemma_rat_add_sub_inverse, lemma_rat_add_zero,
    lemma_rat_div_congruence,
    lemma_rat_div_mul_inverse, lemma_rat_div_one, lemma_rat_eq_trans,
    lemma_rat_mul_congruence, lemma_rat_mul_div_inverse, lemma_rat_mul_one,
    lemma_rat_sub_add_inverse, lemma_rat_sub_congruence, lemma_rat_sub_zero, rat_add, rat_div,
    rat_eq, rat_int, rat_mul, rat_sub, rat_wf, Ratio,
};
use crate::rational::{lemma_small_ok, rat_canon, rat_inv, Rational};

verus! {

/// The mathematical content of a unit conversion.
pub ghost struct ConvData {
    pub scale: Ratio,
    pub offset: Ratio,
}

/// A meaningful conversion: well-formed components and a nonzero scale, so
/// that the two directions are mutual inverses.
pub open spec fn conv_wf(c: ConvData) -> bool {
    &&& rat_wf(c.scale)
    &&& rat_wf(c.offset)
    &&& c.scale.num != 0
}

/// A linear conversion: no additive offset, a pure change of scale.
pub open spec fn conv_is_linear(c: ConvData) -> bool {
    c.offset.num == 0
}

/// The identity conversion, owned by every canonical unit.
pub open spec fn conv_is_identity(c: ConvData) -> bool {
    rat_eq(c.scale, rat_int(1)) && rat_eq(c.offset, rat_int(0))
}

/// The exact canonical value of `v` expressed in the unit converted by `c`.
pub open spec fn to_canonical_exact(c: ConvData, v: Ratio) -> Ratio {
    rat_mul(rat_add(v, c.offset), c.scale)
}

/// The exact value in the unit converted by `c` of the canonical value `v`.
pub open spec fn from_canonical_exact(c: ConvData, v: Ratio) -> Ratio {
    rat_sub(rat_div(v, c.scale), c.offset)
}

/// Converting to canonical preserves well-formedness of the denominator.
pub proof fn lemma_to_canonical_wf(c: ConvData, v: Ratio)
    requires
        conv_wf(c),
        rat_wf(v),
    ensures
        rat_wf(to_canonical_exact(c, v)),
{
    assert((v.den * c.offset.den) * c.scale.den > 0) by (nonlinear_arith)
        requires
            v.den > 0,
            c.offset.den > 0,
            c.scale.den > 0,
    ;
}

/// Converting to canonical keeps the denominator nonzero.
pub proof fn lemma_to_canonical_nonzero(c: ConvData, v: Ratio)
    requires
        conv_wf(c),
        v.den != 0,
    ensures
        to_canonical_exact(c, v).den != 0,
{
    assert((v.den * c.offset.den) * c.scale.den != 0) by (nonlinear_arith)
        requires
            v.den != 0,
            c.offset.den > 0,
            c.scale.den > 0,
    ;
}

/// Converting from canonical yields a nonzero denominator.
pub proof fn lemma_from_canonical_wf(c: ConvData, v: Ratio)
    requires
        conv_wf(c),
        rat_wf(v),
    ensures
        from_canonical_exact(c, v).den != 0,
{
    assert((v.den * c.scale.num) * c.offset.den != 0) by (nonlinear_arith)
        requires
            v.den > 0,
            c.offset.den > 0,
            c.scale.num != 0,
    ;
}

/// Round trip: a value converted to the canonical unit and read back out in
/// the same unit is unchanged. This holds for every conversion, linear or
/// affine, with a nonzero scale.
pub proof fn lemma_conv_round_trip(c: ConvData, v: Ratio)
    requires
        conv_wf(c),
        rat_wf(v),
    ensures
        rat_eq(from_canonical_exact(c, to_canonical_exact(c, v)), v),
{
    let added = rat_add(v, c.offset);
    let canonical = rat_mul(added, c.scale);
    let back = rat_div(canonical, c.scale);
    let result = rat_sub(back, c.offset);
    lemma_rat_mul_div_inverse(added, c.scale);
    lemma_rat_sub_congruence(back, c.offset, added, c.offset);
    lemma_rat_add_sub_inverse(v, c.offset);
    assert(((v.den * c.offset.den) * c.scale.den) * c.scale.num != 0 && (v.den
        * c.offset.den) * c.offset.den > 0) by (nonlinear_arith)
        requires
            v.den > 0,
            c.offset.den > 0,
            c.scale.den > 0,
            c.scale.num != 0,
    ;
    assert(rat_sub(added, c.offset).den != 0);
    lemma_rat_eq_trans(result, rat_sub(added, c.offset), v);
}

/// Round trip in the other direction: a canonical value read out in a unit
/// and converted back to canonical is unchanged.
pub proof fn lemma_conv_round_trip_from(c: ConvData, v: Ratio)
    requires
        conv_wf(c),
        rat_wf(v),
    ensures
        rat_eq(to_canonical_exact(c, from_canonical_exact(c, v)), v),
{
    let quotient = rat_div(v, c.scale);
    let subbed = rat_sub(quotient, c.offset);
    let readded = rat_add(subbed, c.offset);
    let result = rat_mul(readded, c.scale);
    lemma_rat_sub_add_inverse(quotient, c.offset);
    lemma_rat_mul_congruence(readded, c.scale, quotient, c.scale);
    lemma_rat_div_mul_inverse(v, c.scale);
    assert((v.den * c.scale.num) * c.scale.den != 0 && ((v.den * c.scale.num)
        * c.offset.den) * c.scale.den != 0) by (nonlinear_arith)
        requires
            v.den > 0,
            c.scale.den > 0,
            c.offset.den > 0,
            c.scale.num != 0,
    ;
    assert(rat_mul(quotient, c.scale).den != 0);
    lemma_rat_eq_trans(result, rat_mul(quotient, c.scale), v);
}

/// Converting to canonical respects value equality.
pub proof fn lemma_to_canonical_congruent(c: ConvData, x: Ratio, y: Ratio)
    requires
        conv_wf(c),
        rat_eq(x, y),
    ensures
        rat_eq(to_canonical_exact(c, x), to_canonical_exact(c, y)),
{
    lemma_rat_add_congruence(x, c.offset, y, c.offset);
    lemma_rat_mul_congruence(rat_add(x, c.offset), c.scale, rat_add(y, c.offset), c.scale);
}

/// Reading out of canonical respects value equality.
pub proof fn lemma_from_canonical_congruent(c: ConvData, x: Ratio, y: Ratio)
    requires
        conv_wf(c),
        rat_eq(x, y),
    ensures
        rat_eq(from_canonical_exact(c, x), from_canonical_exact(c, y)),
{
    lemma_rat_div_congruence(x, c.scale, y, c.scale);
    lemma_rat_sub_congruence(rat_div(x, c.scale), c.offset, rat_div(y, c.scale), c.offset);
}

/// The identity conversion changes no value, in either direction.
pub proof fn lemma_conv_identity(c: ConvData, v: Ratio)
    requires
        conv_wf(c),
        conv_is_identity(c),
        rat_wf(v),
    ensures
        rat_eq(to_canonical_exact(c, v), v),
        rat_eq(from_canonical_exact(c, v), v),
{
    // Toward canonical: (v + 0) * 1 ~ v.
    let added = rat_add(v, c.offset);
    lemma_rat_add_zero(v, c.offset);
    lemma_rat_mul_congruence(added, c.scale, v, c.scale);
    lemma_rat_mul_one(v, c.scale);
    assert(v.den * c.offset.den > 0 && v.den * c.scale.den > 0 && (v.den
        * c.offset.den) * c.scale.den > 0) by (nonlinear_arith)
        requires
            v.den > 0,
            c.offset.den > 0,
            c.scale.den > 0,
    ;
    assert(added.den > 0 && rat_mul(v, c.scale).den > 0);
    lemma_rat_eq_trans(to_canonical_exact(c, v), rat_mul(v, c.scale), v);
    // From canonical: v / 1 - 0 ~ v.
    let quotient = rat_div(v, c.scale);
    lemma_rat_div_one(v, c.scale);
    lemma_rat_sub_congruence(quotient, c.offset, v, c.offset);
    lemma_rat_sub_zero(v, c.offset);
    assert(v.den * c.scale.num != 0 && v.den * c.offset.den > 0 && (v.den
        * c.scale.num) * c.offset.den != 0) by (nonlinear_arith)
        requires
            v.den > 0,
            c.offset.den > 0,
            c.scale.num != 0,
    ;
    assert(quotient.den != 0 && rat_sub(v, c.offset).den != 0);
    lemma_rat_eq_trans(from_canonical_exact(c, v), rat_sub(v, c.offset), v);
}

/// The conversion data of a linear unit with scale `n / d`.
pub open spec fn lin_data(n: int, d: int) -> ConvData {
    ConvData { scale: rat_canon((Ratio { num: n, den: d })), offset: rat_int(0) }
}

/// The conversion data of an affine unit with scale `sn / sd` and offset
/// `on / od`.
pub open spec fn affine_data(sn: int, sd: int, on: int, od: int) -> ConvData {
    ConvData {
        scale: rat_canon((Ratio { num: sn, den: sd })),
        offset: rat_canon((Ratio { num: on, den: od })),
    }
}

/// An executable unit conversion: a nonzero scale and an offset, both exact.
#[derive(Clone, Copy)]
pub struct Conv {
    scale: Rational,
    offset: Rational,
}

impl View for Conv {
    type V = ConvData;

    closed spec fn view(&self) -> ConvData {
        ConvData { scale: self.scale@, offset: self.offset@ }
    }
}

impl Conv {
    /// Components are stored canonically and the conversion is invertible.
    pub open spec fn inv(self) -> bool {
        &&& rat_inv(self@.scale)
        &&& rat_inv(self@.offset)
        &&& self@.scale.num != 0
    }

    /// A stored conversion is well formed.
    pub proof fn lemma_inv_wf(self)
        requires
            self.inv(),
        ensures
            conv_wf(self@),
    {
    }

    /// A linear conversion from its scale. Returns `None` exactly when the
    /// scale is zero, which would not be invertible.
    pub fn new_linear(scale: Rational) -> (r: Option<Conv>)
        requires
            scale.inv(),
        ensures
            r is Some <==> scale@.num != 0,
            r matches Some(c) ==> c.inv() && c@.scale == scale@ && c@.offset == rat_int(0)
                && conv_is_linear(c@),
    {
        if scale.is_zero() {
            None
        } else {
            Some(Conv { scale, offset: Rational::zero() })
        }
    }

    /// An affine conversion from its scale and offset. Returns `None` exactly
    /// when the scale is zero.
    pub fn new_affine(scale: Rational, offset: Rational) -> (r: Option<Conv>)
        requires
            scale.inv(),
            offset.inv(),
        ensures
            r is Some <==> scale@.num != 0,
            r matches Some(c) ==> c.inv() && c@.scale == scale@ && c@.offset == offset@,
    {
        if scale.is_zero() {
            None
        } else {
            Some(Conv { scale, offset })
        }
    }

    /// The identity conversion, for canonical units.
    pub fn identity() -> (r: Conv)
        ensures
            r.inv(),
            conv_is_identity(r@),
            conv_is_linear(r@),
            r@.scale == rat_int(1),
            r@.offset == rat_int(0),
    {
        Conv { scale: Rational::one(), offset: Rational::zero() }
    }

    /// The scale component.
    pub fn scale(&self) -> (r: Rational)
        requires
            self.inv(),
        ensures
            r@ == self@.scale,
            r.inv(),
    {
        self.scale
    }

    /// The offset component.
    pub fn offset(&self) -> (r: Rational)
        requires
            self.inv(),
        ensures
            r@ == self@.offset,
            r.inv(),
    {
        self.offset
    }

    /// Whether the conversion is linear (offset-free).
    pub fn is_linear(&self) -> (r: bool)
        requires
            self.inv(),
        ensures
            r == conv_is_linear(self@),
    {
        self.offset.is_zero()
    }

    /// The linear conversion with scale `n / d`.
    pub fn lin(n: i64, d: i64) -> (c: Conv)
        requires
            1 <= n,
            1 <= d,
        ensures
            c.inv(),
            c@ == lin_data(n as int, d as int),
            conv_is_linear(c@),
            conv_wf(c@),
    {
        proof {
            lemma_small_ok(n as int, d as int);
        }
        let scale = Rational::new(n, d).unwrap();
        Conv { scale, offset: Rational::zero() }
    }

    /// The affine conversion with scale `sn / sd` and offset `on / od`.
    pub fn affine(sn: i64, sd: i64, on: i64, od: i64) -> (c: Conv)
        requires
            1 <= sn,
            1 <= sd,
            -(0x7fff_ffff_ffff_ffffi64) <= on,
            1 <= od,
        ensures
            c.inv(),
            c@ == affine_data(sn as int, sd as int, on as int, od as int),
            conv_wf(c@),
    {
        proof {
            lemma_small_ok(sn as int, sd as int);
            lemma_small_ok(on as int, od as int);
        }
        let scale = Rational::new(sn, sd).unwrap();
        let offset = Rational::new(on, od).unwrap();
        Conv { scale, offset }
    }
}

} // verus!
