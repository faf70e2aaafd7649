//! The scalar capability set: what a numeric representation must support to
//! carry a quantity.
//!
//! A scalar denotes an exact rational value (`s_model`). Arithmetic and unit
//! conversion produce the mathematically exact result, rounded by the
//! representation's own rule (`s_round`): the exact rational scalar keeps it
//! unchanged in canonical form, while the 64-bit integer scalar truncates
//! toward zero — the documented precision loss of integer-typed quantities.
//! An operation yields `None` exactly when its result is not representable
//! (`s_ops_ok` and the conversion analogues say precisely when).

use vstd::math::abs;
use vstd::prelude::*;

use crate::convert::{
    from_canonical_exact, to_canonical_exact, Conv, ConvData,
};
use crate::ratio::{
    rat_add, rat_div, rat_int, rat_mul, rat_sub, rat_trunc, rat_wf, Ratio,
};
use crate::rational::{
    lemma_canon_unique, lemma_canon_value, lemma_i64_products_fit, rat_canon, rat_ok, Rational,
};

verus! {

/// The numeric capabilities a quantity's representation must provide.
pub trait Scalar: Sized + Copy {
    /// The exact rational value this scalar denotes.
    spec fn s_model(self) -> Ratio;

    /// Validity of the representation.
    spec fn s_inv(self) -> bool;

    /// What an exact rational result becomes when stored in this
    /// representation.
    spec fn s_round(x: Ratio) -> Ratio;

    /// Whether an arithmetic operation with this exact result succeeds.
    spec fn s_ops_ok(x: Ratio) -> bool;

    /// Whether converting the value `v` to canonical through `c` succeeds.
    spec fn s_conv_to_ok(v: Ratio, c: ConvData) -> bool;

    /// Whether reading the canonical value `v` out through `c` succeeds.
    spec fn s_conv_from_ok(v: Ratio, c: ConvData) -> bool;

    /// A valid scalar denotes a well-formed ratio.
    proof fn lemma_inv_model(self)
        requires
            self.s_inv(),
        ensures
            rat_wf(self.s_model()),
    ;

    /// The scalar one.
    fn s_one() -> (r: Self)
        ensures
            r.s_inv(),
            r.s_model() == rat_int(1),
    ;

    /// Exact addition, rounded by the representation.
    fn s_add(self, rhs: Self) -> (r: Option<Self>)
        requires
            self.s_inv(),
            rhs.s_inv(),
        ensures
            r is Some <==> Self::s_ops_ok(rat_add(self.s_model(), rhs.s_model())),
            r matches Some(v) ==> v.s_inv() && v.s_model() == Self::s_round(
                rat_add(self.s_model(), rhs.s_model()),
            ),
    ;

    /// Exact subtraction, rounded by the representation.
    fn s_sub(self, rhs: Self) -> (r: Option<Self>)
        requires
            self.s_inv(),
            rhs.s_inv(),
        ensures
            r is Some <==> Self::s_ops_ok(rat_sub(self.s_model(), rhs.s_model())),
            r matches Some(v) ==> v.s_inv() && v.s_model() == Self::s_round(
                rat_sub(self.s_model(), rhs.s_model()),
            ),
    ;

    /// Exact multiplication, rounded by the representation.
    fn s_mul(self, rhs: Self) -> (r: Option<Self>)
        requires
            self.s_inv(),
            rhs.s_inv(),
        ensures
            r is Some <==> Self::s_ops_ok(rat_mul(self.s_model(), rhs.s_model())),
            r matches Some(v) ==> v.s_inv() && v.s_model() == Self::s_round(
                rat_mul(self.s_model(), rhs.s_model()),
            ),
    ;

    /// Exact division, rounded by the representation. Fails on a zero
    /// divisor.
    fn s_div(self, rhs: Self) -> (r: Option<Self>)
        requires
            self.s_inv(),
            rhs.s_inv(),
        ensures
            r is Some <==> Self::s_ops_ok(rat_div(self.s_model(), rhs.s_model())),
            r matches Some(v) ==> v.s_inv() && v.s_model() == Self::s_round(
                rat_div(self.s_model(), rhs.s_model()),
            ),
    ;

    /// Converts a value expressed in the unit converted by `c` to the
    /// canonical unit: exactly `(v + offset) * scale`, rounded once.
    fn s_to_canonical(self, c: &Conv) -> (r: Option<Self>)
        requires
            self.s_inv(),
            c.inv(),
        ensures
            r is Some <==> Self::s_conv_to_ok(self.s_model(), c@),
            r matches Some(v) ==> v.s_inv() && v.s_model() == Self::s_round(
                to_canonical_exact(c@, self.s_model()),
            ),
    ;

    /// Reads a canonical value out in the unit converted by `c`: exactly
    /// `v / scale - offset`, rounded once.
    fn s_from_canonical(self, c: &Conv) -> (r: Option<Self>)
        requires
            self.s_inv(),
            c.inv(),
        ensures
            r is Some <==> Self::s_conv_from_ok(self.s_model(), c@),
            r matches Some(v) ==> v.s_inv() && v.s_model() == Self::s_round(
                from_canonical_exact(c@, self.s_model()),
            ),
    ;
}

impl Scalar for Rational {
    open spec fn s_model(self) -> Ratio {
        self@
    }

    open spec fn s_inv(self) -> bool {
        self.inv()
    }

    /// The exact scalar does not round: it stores the canonical form of the
    /// exact result.
    open spec fn s_round(x: Ratio) -> Ratio {
        rat_canon(x)
    }

    open spec fn s_ops_ok(x: Ratio) -> bool {
        rat_ok(x)
    }

    open spec fn s_conv_to_ok(v: Ratio, c: ConvData) -> bool {
        rat_ok(rat_add(v, c.offset)) && rat_ok(to_canonical_exact(c, v))
    }

    open spec fn s_conv_from_ok(v: Ratio, c: ConvData) -> bool {
        rat_ok(rat_div(v, c.scale)) && rat_ok(from_canonical_exact(c, v))
    }

    proof fn lemma_inv_model(self) {
    }

    fn s_one() -> (r: Rational) {
        Rational::one()
    }

    fn s_add(self, rhs: Rational) -> (r: Option<Rational>) {
        self.checked_add(rhs)
    }

    fn s_sub(self, rhs: Rational) -> (r: Option<Rational>) {
        self.checked_sub(rhs)
    }

    fn s_mul(self, rhs: Rational) -> (r: Option<Rational>) {
        self.checked_mul(rhs)
    }

    fn s_div(self, rhs: Rational) -> (r: Option<Rational>) {
        self.checked_div(rhs)
    }

    fn s_to_canonical(self, c: &Conv) -> (r: Option<Rational>) {
        let ghost added = rat_add(self@, c@.offset);
        let ghost exact = to_canonical_exact(c@, self@);
        match self.checked_add(c.offset()) {
            None => None,
            Some(step) => {
                proof {
                    assert(self@.den * c@.offset.den > 0) by (nonlinear_arith)
                        requires
                            self@.den > 0,
                            c@.offset.den > 0,
                    ;
                    lemma_canon_value(added);
                    crate::ratio::lemma_rat_mul_congruence(step@, c@.scale, added, c@.scale);
                    assert(step@.den * c@.scale.den > 0 && (self@.den * c@.offset.den)
                        * c@.scale.den > 0) by (nonlinear_arith)
                        requires
                            step@.den > 0,
                            self@.den > 0,
                            c@.offset.den > 0,
                            c@.scale.den > 0,
                    ;
                    lemma_canon_unique(rat_mul(step@, c@.scale), exact);
                }
                step.checked_mul(c.scale())
            },
        }
    }

    fn s_from_canonical(self, c: &Conv) -> (r: Option<Rational>) {
        let ghost quotient = rat_div(self@, c@.scale);
        let ghost exact = from_canonical_exact(c@, self@);
        match self.checked_div(c.scale()) {
            None => None,
            Some(step) => {
                proof {
                    assert(self@.den * c@.scale.num != 0) by (nonlinear_arith)
                        requires
                            self@.den > 0,
                            c@.scale.num != 0,
                    ;
                    lemma_canon_value(quotient);
                    crate::ratio::lemma_rat_sub_congruence(step@, c@.offset, quotient, c@.offset);
                    assert(step@.den * c@.offset.den > 0 && (self@.den * c@.scale.num)
                        * c@.offset.den != 0) by (nonlinear_arith)
                        requires
                            step@.den > 0,
                            self@.den > 0,
                            c@.offset.den > 0,
                            c@.scale.num != 0,
                    ;
                    lemma_canon_unique(rat_sub(step@, c@.offset), exact);
                }
                step.checked_sub(c.offset())
            },
        }
    }
}

/// Truncates the exact fraction `num / den` toward zero, reporting `None`
/// when the truncated value does not fit the valid `i64` scalars.
fn trunc_i128(num: i128, den: i128) -> (r: Option<i64>)
    requires
        num != i128::MIN,
        den != 0,
        den != i128::MIN,
    ensures
        r is Some <==> i64::MIN < rat_trunc(Ratio { num: num as int, den: den as int })
            <= i64::MAX,
        r matches Some(v) ==> v as int == rat_trunc(Ratio { num: num as int, den: den as int })
            && v != i64::MIN,
{
    let neg: bool = (num < 0) != (den < 0);
    let n: u128 = if num < 0 {
        (-num) as u128
    } else {
        num as u128
    };
    let d: u128 = if den < 0 {
        (-den) as u128
    } else {
        den as u128
    };
    assert(n as nat == abs(num as int) && d as nat == abs(den as int));
    let q = n / d;
    if q > (i64::MAX as u128) {
        None
    } else {
        if neg {
            Some(-(q as i64))
        } else {
            Some(q as i64)
        }
    }
}

impl Scalar for i64 {
    open spec fn s_model(self) -> Ratio {
        rat_int(self as int)
    }

    /// The most negative value is excluded so that negation stays within
    /// range.
    open spec fn s_inv(self) -> bool {
        self != i64::MIN
    }

    /// The integer scalar truncates every exact result toward zero, as
    /// integer division truncates. Precision loss on conversion is accepted
    /// behavior, not an error.
    open spec fn s_round(x: Ratio) -> Ratio {
        rat_int(rat_trunc(x))
    }

    open spec fn s_ops_ok(x: Ratio) -> bool {
        x.den != 0 && i64::MIN < rat_trunc(x) <= i64::MAX
    }

    open spec fn s_conv_to_ok(v: Ratio, c: ConvData) -> bool {
        let e = to_canonical_exact(c, v);
        &&& e.den != 0
        &&& -(i128::MAX as int) <= e.num <= i128::MAX as int
        &&& i64::MIN < rat_trunc(e) <= i64::MAX
    }

    open spec fn s_conv_from_ok(v: Ratio, c: ConvData) -> bool {
        let e = from_canonical_exact(c, v);
        &&& e.den != 0
        &&& i128::MIN <= (v.num * c.scale.den) * c.offset.den <= i128::MAX as int
        &&& -(i128::MAX as int) <= e.num <= i128::MAX as int
        &&& i64::MIN < rat_trunc(e) <= i64::MAX
    }

    proof fn lemma_inv_model(self) {
    }

    fn s_one() -> (r: i64) {
        1
    }

    fn s_add(self, rhs: i64) -> (r: Option<i64>) {
        proof {
            let a: int = self as int;
            let b: int = rhs as int;
            assert(rat_add(rat_int(a), rat_int(b)).den == 1);
            assert(rat_add(rat_int(a), rat_int(b)).num == a + b);
            crate::ratio::lemma_rat_trunc_int(self as int + rhs as int);
        }
        match self.checked_add(rhs) {
            None => None,
            Some(v) => {
                if v == i64::MIN {
                    None
                } else {
                    Some(v)
                }
            },
        }
    }

    fn s_sub(self, rhs: i64) -> (r: Option<i64>) {
        proof {
            let a: int = self as int;
            let b: int = rhs as int;
            assert(rat_sub(rat_int(a), rat_int(b)).den == 1);
            assert(rat_sub(rat_int(a), rat_int(b)).num == a - b);
            crate::ratio::lemma_rat_trunc_int(self as int - rhs as int);
        }
        match self.checked_sub(rhs) {
            None => None,
            Some(v) => {
                if v == i64::MIN {
                    None
                } else {
                    Some(v)
                }
            },
        }
    }

    fn s_mul(self, rhs: i64) -> (r: Option<i64>) {
        proof {
            let a: int = self as int;
            let b: int = rhs as int;
            assert(rat_mul(rat_int(a), rat_int(b)).den == 1);
            assert(rat_mul(rat_int(a), rat_int(b)).num == a * b);
            crate::ratio::lemma_rat_trunc_int(self as int * rhs as int);
        }
        match self.checked_mul(rhs) {
            None => None,
            Some(v) => {
                if v == i64::MIN {
                    None
                } else {
                    Some(v)
                }
            },
        }
    }

    fn s_div(self, rhs: i64) -> (r: Option<i64>) {
        proof {
            let a: int = self as int;
            let b: int = rhs as int;
            assert(rat_div(rat_int(a), rat_int(b)).den == b);
            assert(rat_div(rat_int(a), rat_int(b)).num == a);
            if rhs != 0 {
                crate::ratio::lemma_rat_trunc_cases(self as int, rhs as int);
            }
        }
        match self.checked_div(rhs) {
            None => None,
            Some(v) => {
                if v == i64::MIN {
                    None
                } else {
                    Some(v)
                }
            },
        }
    }

    fn s_to_canonical(self, c: &Conv) -> (r: Option<i64>) {
        let offset = c.offset();
        let scale = c.scale();
        let bn = offset.num();
        let bd = offset.den();
        let sn = scale.num();
        let sd = scale.den();
        proof {
            lemma_i64_products_fit(self as int, bd as int, bn as int, sd as int);
        }
        let x: i128 = (self as i128) * (bd as i128) + (bn as i128);
        let ghost e = to_canonical_exact(c@, rat_int(self as int));
        assert(e.num == x * (sn as int) && e.den == (bd as int) * (sd as int));
        match x.checked_mul(sn as i128) {
            None => None,
            Some(y) => {
                if y == i128::MIN {
                    None
                } else {
                    proof {
                        lemma_i64_products_fit(bd as int, sd as int, 1, 1);
                        assert((bd as int) * (sd as int) >= 1) by (nonlinear_arith)
                            requires
                                bd as int >= 1,
                                sd as int >= 1,
                        ;
                    }
                    let d: i128 = (bd as i128) * (sd as i128);
                    trunc_i128(y, d)
                }
            },
        }
    }

    fn s_from_canonical(self, c: &Conv) -> (r: Option<i64>) {
        let offset = c.offset();
        let scale = c.scale();
        let bn = offset.num();
        let bd = offset.den();
        let sn = scale.num();
        let sd = scale.den();
        proof {
            lemma_i64_products_fit(self as int, sd as int, bn as int, sn as int);
        }
        let x1: i128 = (self as i128) * (sd as i128);
        let ghost e = from_canonical_exact(c@, rat_int(self as int));
        assert(e.num == x1 * (bd as int) - (bn as int) * (sn as int) && e.den == (sn as int)
            * (bd as int));
        match x1.checked_mul(bd as i128) {
            None => None,
            Some(x2) => {
                let x3: i128 = (bn as i128) * (sn as i128);
                match x2.checked_sub(x3) {
                    None => None,
                    Some(num) => {
                        if num == i128::MIN {
                            None
                        } else {
                            proof {
                                assert((sn as int) * (bd as int) != 0) by (nonlinear_arith)
                                    requires
                                        sn as int != 0,
                                        bd as int >= 1,
                                ;
                            }
                            let den: i128 = (sn as i128) * (bd as i128);
                            trunc_i128(num, den)
                        }
                    },
                }
            },
        }
    }
}

} // verus!
