//! The exact scalar: a rational number stored in lowest terms with a positive
//! denominator, in 64-bit components.
//!
//! Arithmetic is exact. An operation returns `None` exactly when the
//! mathematical result, brought to canonical form, does not fit the 64-bit
//! components (or a division by zero was asked for); it never rounds.

use vstd::arithmetic::div_mod::lemma_div_nonincreasing;
use vstd::math::abs;
use vstd::prelude::*;

use crate::gcd::{gcd, gcd_u128, lemma_gcd_pos, lemma_lowest_terms_unique, lemma_reduced_eq,
    lemma_reduced_unique, lemma_reduced_wf, reduced};
use crate::ratio::{rat_add, rat_div, rat_eq, rat_int, rat_lt, rat_mul, rat_sub, rat_trunc,
    rat_wf, Ratio};

verus! {

/// The largest magnitude a stored component may have.
pub const COMPONENT_MAX: i64 = 0x7fff_ffff_ffff_ffff;

/// An exact rational scalar. The stored fraction is always in lowest terms
/// with a positive denominator, so equal values are stored identically.
#[derive(Clone, Copy, PartialEq, Eq, Structural, Debug)]
pub struct Rational {
    num: i64,
    den: i64,
}

impl View for Rational {
    type V = Ratio;

    closed spec fn view(&self) -> Ratio {
        Ratio { num: self.num as int, den: self.den as int }
    }
}

/// A ratio whose components fit the stored 64-bit form.
pub open spec fn rat_fits(x: Ratio) -> bool {
    &&& -(COMPONENT_MAX as int) <= x.num <= COMPONENT_MAX as int
    &&& 1 <= x.den <= COMPONENT_MAX as int
}

/// The canonical form of a ratio: lowest terms, positive denominator.
pub open spec fn rat_canon(x: Ratio) -> Ratio {
    reduced(x.num, x.den)
}

/// Whether an exact result is representable: its canonical form fits the
/// stored components. A zero denominator (a division by zero) never is.
pub open spec fn rat_ok(x: Ratio) -> bool {
    x.den != 0 && rat_fits(rat_canon(x))
}

/// A ratio in stored form: within component bounds and in lowest terms.
pub open spec fn rat_inv(x: Ratio) -> bool {
    rat_fits(x) && gcd(abs(x.num), x.den as nat) == 1
}

/// The canonical form denotes the same value and is well formed.
pub proof fn lemma_canon_value(x: Ratio)
    requires
        x.den != 0,
    ensures
        rat_eq(rat_canon(x), x),
        rat_eq(x, rat_canon(x)),
        rat_wf(rat_canon(x)),
{
    lemma_reduced_eq(x.num, x.den);
    lemma_reduced_wf(x.num, x.den);
    crate::ratio::lemma_rat_eq_symm(rat_canon(x), x);
}

/// Value-equal ratios have the same canonical form.
pub proof fn lemma_canon_unique(x: Ratio, y: Ratio)
    requires
        x.den != 0,
        y.den != 0,
        rat_eq(x, y),
    ensures
        rat_canon(x) == rat_canon(y),
{
    lemma_reduced_unique(x, y);
}

/// Any fraction whose components already fit the stored bounds is
/// representable, and its canonical form keeps the numerator's sign.
pub proof fn lemma_small_ok(n: int, d: int)
    requires
        -(COMPONENT_MAX as int) <= n <= COMPONENT_MAX as int,
        1 <= d <= COMPONENT_MAX as int,
    ensures
        rat_ok((Ratio { num: n, den: d })),
        rat_inv(rat_canon((Ratio { num: n, den: d }))),
        rat_wf(rat_canon((Ratio { num: n, den: d }))),
        rat_canon((Ratio { num: n, den: d })).num == 0 <==> n == 0,
{
    lemma_reduced_wf(n, d);
    let g = gcd(abs(n), abs(d)) as int;
    crate::gcd::lemma_gcd_pos(abs(n), abs(d));
    lemma_div_nonincreasing(abs(n) as int, g);
    lemma_div_nonincreasing(abs(d) as int, g);
    assert(abs(rat_canon((Ratio { num: n, den: d })).num) == abs(n) as int / g);
}

/// A fraction already in lowest terms with a positive denominator within
/// component bounds is its own canonical form and is representable.
pub proof fn lemma_coprime_canon(n: int, d: int)
    requires
        rat_inv((Ratio { num: n, den: d })),
    ensures
        rat_canon((Ratio { num: n, den: d })) == (Ratio { num: n, den: d }),
        rat_ok((Ratio { num: n, den: d })),
{
    let x = Ratio { num: n, den: d };
    lemma_reduced_eq(n, d);
    lemma_reduced_wf(n, d);
    lemma_lowest_terms_unique(rat_canon(x).num, rat_canon(x).den, n, d);
}

impl Rational {
    /// The stored fraction is in lowest terms, with a positive denominator
    /// and components that negation cannot overflow.
    pub open spec fn inv(self) -> bool {
        rat_inv(self@)
    }

    /// A stored value is its own canonical form.
    pub proof fn lemma_stored_is_canon(self)
        requires
            self.inv(),
        ensures
            rat_canon(self@) == self@,
            rat_ok(self@),
    {
        lemma_reduced_eq(self@.num, self@.den);
        lemma_reduced_wf(self@.num, self@.den);
        lemma_lowest_terms_unique(
            rat_canon(self@).num,
            rat_canon(self@).den,
            self@.num,
            self@.den,
        );
    }

    /// Two stored values are identical exactly when they denote the same
    /// rational number.
    pub proof fn lemma_eq_is_value_eq(a: Rational, b: Rational)
        requires
            a.inv(),
            b.inv(),
        ensures
            a@ == b@ <==> rat_eq(a@, b@),
    {
        if rat_eq(a@, b@) {
            lemma_canon_unique(a@, b@);
            a.lemma_stored_is_canon();
            b.lemma_stored_is_canon();
        }
    }

    /// Brings an exact intermediate fraction to canonical form, or reports
    /// that it does not fit the stored components.
    fn normalize(num: i128, den: i128) -> (r: Option<Rational>)
        requires
            num != i128::MIN,
            den != 0,
            den != i128::MIN,
        ensures
            r is Some <==> rat_fits(reduced(num as int, den as int)),
            r matches Some(v) ==> v.inv() && v@ == reduced(num as int, den as int),
    {
        proof {
            lemma_reduced_wf(num as int, den as int);
        }
        let neg: bool = (num < 0) != (den < 0);
        let n: u128 = if num < 0 {
            (-num) as u128
        } else {
            num as u128
        };
        let d: u128 = if den < 0 {
            (-den) as u128
        } else {
            den as u128
        };
        assert(n as nat == abs(num as int) && d as nat == abs(den as int));
        let g = gcd_u128(n, d);
        proof {
            lemma_gcd_pos(n as nat, d as nat);
        }
        let nr = n / g;
        let dr = d / g;
        assert(nr as int == abs(num as int) as int / (gcd(abs(num as int), abs(den as int)) as int));
        assert(dr as int == reduced(num as int, den as int).den);
        if nr > (COMPONENT_MAX as u128) || dr > (COMPONENT_MAX as u128) {
            assert(!rat_fits(reduced(num as int, den as int))) by {
                assert(abs(reduced(num as int, den as int).num) == nr as nat);
            }
            None
        } else {
            let num_r: i64 = if neg {
                -(nr as i64)
            } else {
                nr as i64
            };
            let r = Rational { num: num_r, den: dr as i64 };
            assert(r@ == reduced(num as int, den as int));
            Some(r)
        }
    }

    /// Builds the scalar `num / den` in canonical form. Returns `None` when
    /// `den` is zero or the canonical form does not fit the components.
    pub fn new(num: i64, den: i64) -> (r: Option<Rational>)
        ensures
            r is Some <==> rat_ok(Ratio { num: num as int, den: den as int }),
            r matches Some(v) ==> v.inv() && v@ == rat_canon(
                Ratio { num: num as int, den: den as int },
            ),
    {
        if den == 0 {
            None
        } else {
            Self::normalize(num as i128, den as i128)
        }
    }

    /// The scalar denoting the integer `n`.
    pub fn from_int(n: i64) -> (r: Rational)
        requires
            n > i64::MIN,
        ensures
            r.inv(),
            r@ == rat_int(n as int),
    {
        proof {
            crate::gcd::lemma_gcd_one(abs(n as int));
        }
        Rational { num: n, den: 1 }
    }

    /// The scalar zero.
    pub fn zero() -> (r: Rational)
        ensures
            r.inv(),
            r@ == rat_int(0),
    {
        Rational::from_int(0)
    }

    /// The scalar one.
    pub fn one() -> (r: Rational)
        ensures
            r.inv(),
            r@ == rat_int(1),
    {
        Rational::from_int(1)
    }

    /// The numerator of the canonical form.
    pub fn num(&self) -> (r: i64)
        ensures
            r as int == self@.num,
    {
        self.num
    }

    /// The denominator of the canonical form.
    pub fn den(&self) -> (r: i64)
        ensures
            r as int == self@.den,
    {
        self.den
    }

    /// Whether the value is zero.
    pub fn is_zero(&self) -> (r: bool)
        ensures
            r == (self@.num == 0),
    {
        self.num == 0
    }

    /// Exact sum. `None` exactly when the result does not fit.
    pub fn checked_add(self, rhs: Rational) -> (r: Option<Rational>)
        requires
            self.inv(),
            rhs.inv(),
        ensures
            r is Some <==> rat_ok(rat_add(self@, rhs@)),
            r matches Some(v) ==> v.inv() && v@ == rat_canon(rat_add(self@, rhs@)),
    {
        proof {
            lemma_i64_products_fit(self@.num, self@.den, rhs@.num, rhs@.den);
            assert(self@.den * rhs@.den >= 1) by (nonlinear_arith)
                requires
                    self@.den >= 1,
                    rhs@.den >= 1,
            ;
        }
        let n = (self.num as i128) * (rhs.den as i128) + (rhs.num as i128) * (self.den as i128);
        let d = (self.den as i128) * (rhs.den as i128);
        Self::normalize(n, d)
    }

    /// Exact difference. `None` exactly when the result does not fit.
    pub fn checked_sub(self, rhs: Rational) -> (r: Option<Rational>)
        requires
            self.inv(),
            rhs.inv(),
        ensures
            r is Some <==> rat_ok(rat_sub(self@, rhs@)),
            r matches Some(v) ==> v.inv() && v@ == rat_canon(rat_sub(self@, rhs@)),
    {
        proof {
            lemma_i64_products_fit(self@.num, self@.den, rhs@.num, rhs@.den);
            assert(self@.den * rhs@.den >= 1) by (nonlinear_arith)
                requires
                    self@.den >= 1,
                    rhs@.den >= 1,
            ;
        }
        let n = (self.num as i128) * (rhs.den as i128) - (rhs.num as i128) * (self.den as i128);
        let d = (self.den as i128) * (rhs.den as i128);
        Self::normalize(n, d)
    }

    /// Exact product. `None` exactly when the result does not fit.
    pub fn checked_mul(self, rhs: Rational) -> (r: Option<Rational>)
        requires
            self.inv(),
            rhs.inv(),
        ensures
            r is Some <==> rat_ok(rat_mul(self@, rhs@)),
            r matches Some(v) ==> v.inv() && v@ == rat_canon(rat_mul(self@, rhs@)),
    {
        proof {
            lemma_i64_products_fit(self@.num, self@.den, rhs@.num, rhs@.den);
            assert(self@.den * rhs@.den >= 1) by (nonlinear_arith)
                requires
                    self@.den >= 1,
                    rhs@.den >= 1,
            ;
        }
        let n = (self.num as i128) * (rhs.num as i128);
        let d = (self.den as i128) * (rhs.den as i128);
        Self::normalize(n, d)
    }

    /// Exact quotient. `None` exactly when the divisor is zero or the result
    /// does not fit.
    pub fn checked_div(self, rhs: Rational) -> (r: Option<Rational>)
        requires
            self.inv(),
            rhs.inv(),
        ensures
            r is Some <==> rat_ok(rat_div(self@, rhs@)),
            r matches Some(v) ==> v.inv() && v@ == rat_canon(rat_div(self@, rhs@)),
    {
        if rhs.num == 0 {
            assert(rat_div(self@, rhs@).den == self@.den * 0);
            None
        } else {
            proof {
                lemma_i64_products_fit(self@.num, self@.den, rhs@.num, rhs@.den);
                assert(self@.den * rhs@.num != 0) by (nonlinear_arith)
                    requires
                        self@.den != 0,
                        rhs@.num != 0,
                ;
            }
            let n = (self.num as i128) * (rhs.den as i128);
            let d = (self.den as i128) * (rhs.num as i128);
            Self::normalize(n, d)
        }
    }

    /// Whether the two scalars denote the same value.
    pub fn eq_value(&self, rhs: &Rational) -> (r: bool)
        requires
            self.inv(),
            rhs.inv(),
        ensures
            r == rat_eq(self@, rhs@),
    {
        proof {
            lemma_i64_products_fit(self@.num, self@.den, rhs@.num, rhs@.den);
        }
        (self.num as i128) * (rhs.den as i128) == (rhs.num as i128) * (self.den as i128)
    }

    /// Whether this value is strictly below the other.
    pub fn lt_value(&self, rhs: &Rational) -> (r: bool)
        requires
            self.inv(),
            rhs.inv(),
        ensures
            r == rat_lt(self@, rhs@),
    {
        proof {
            lemma_i64_products_fit(self@.num, self@.den, rhs@.num, rhs@.den);
        }
        (self.num as i128) * (rhs.den as i128) < (rhs.num as i128) * (self.den as i128)
    }

    /// The value truncated toward zero, as integer division truncates.
    pub fn to_int_trunc(&self) -> (r: i64)
        requires
            self.inv(),
        ensures
            r as int == rat_trunc(self@),
    {
        if self.num >= 0 {
            proof {
                lemma_div_nonincreasing(self.num as int, self.den as int);
            }
            ((self.num as u64) / (self.den as u64)) as i64
        } else {
            proof {
                lemma_div_nonincreasing(-(self.num as int), self.den as int);
            }
            -((((-self.num) as u64) / (self.den as u64)) as i64)
        }
    }
}

/// All pairwise products of 64-bit components fit comfortably inside 128
/// bits, and so does a sum or difference of two such products.
pub(crate) proof fn lemma_i64_products_fit(a: int, b: int, c: int, d: int)
    requires
        -(COMPONENT_MAX as int) <= a <= COMPONENT_MAX as int,
        -(COMPONENT_MAX as int) <= b <= COMPONENT_MAX as int,
        -(COMPONENT_MAX as int) <= c <= COMPONENT_MAX as int,
        -(COMPONENT_MAX as int) <= d <= COMPONENT_MAX as int,
    ensures
        forall|x: int, y: int|
            #![trigger x * y]
            (-(COMPONENT_MAX as int) <= x <= COMPONENT_MAX as int && -(COMPONENT_MAX as int) <= y
                <= COMPONENT_MAX as int) ==> -(0x4000_0000_0000_0000_0000_0000_0000_0000int)
                < x * y < 0x4000_0000_0000_0000_0000_0000_0000_0000int,
{
    assert forall|x: int, y: int|
        (-(COMPONENT_MAX as int) <= x <= COMPONENT_MAX as int && -(COMPONENT_MAX as int) <= y
            <= COMPONENT_MAX as int) implies -(0x4000_0000_0000_0000_0000_0000_0000_0000int)
        < #[trigger] (x * y) < 0x4000_0000_0000_0000_0000_0000_0000_0000int by {
        assert(-(0x4000_0000_0000_0000_0000_0000_0000_0000int) < x * y
            < 0x4000_0000_0000_0000_0000_0000_0000_0000int) by (nonlinear_arith)
            requires
                -(COMPONENT_MAX as int) <= x <= COMPONENT_MAX as int,
                -(COMPONENT_MAX as int) <= y <= COMPONENT_MAX as int,
        ;
    }
}

} // verus!
