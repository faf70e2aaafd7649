//! Quantities: a scalar value tagged by its dimension, always stored in the
//! dimension's canonical unit.
//!
//! The dimension tag is a zero-size type parameter, so quantities of
//! different dimensions are different types and cannot be mixed: adding a
//! length to a time, or converting a length with a unit of time, does not
//! compile. Cross-dimension arithmetic exists only along the declared
//! operation graph (see the operation traits).

use core::marker::PhantomData;

use vstd::prelude::*;

use crate::convert::{conv_is_linear, from_canonical_exact, to_canonical_exact, Conv};
use crate::dimension::{Dimension, UnitOf};
use crate::ratio::{rat_add, rat_div, rat_eq, rat_int, rat_lt, rat_mul, rat_sub, rat_wf, Ratio};
use crate::rational::Rational;
use crate::scalar::Scalar;

verus! {

/// A physical quantity of dimension `D`: an opaque wrapper holding its value
/// expressed in the canonical unit of `D`.
pub struct Quantity<D: Dimension, S: Scalar> {
    canonical: S,
    dim: PhantomData<D>,
}

impl<D: Dimension, S: Scalar> Clone for Quantity<D, S> {
    fn clone(&self) -> (r: Self)
        ensures
            r.model() == self.model(),
            r.inv() == self.inv(),
    {
        Quantity { canonical: self.canonical, dim: PhantomData }
    }
}

impl<D: Dimension, S: Scalar> Copy for Quantity<D, S> {

}

impl<D: Dimension, S: Scalar> Quantity<D, S> {
    /// The exact rational value of the quantity, in canonical units.
    pub closed spec fn model(self) -> Ratio {
        self.canonical.s_model()
    }

    /// The stored scalar is valid.
    pub closed spec fn inv(self) -> bool {
        self.canonical.s_inv()
    }

    /// A valid quantity has a well-formed value.
    pub proof fn lemma_inv_wf(self)
        requires
            self.inv(),
        ensures
            rat_wf(self.model()),
    {
        self.canonical.lemma_inv_model();
    }

    /// Wraps a scalar already expressed in the canonical unit.
    pub fn from_canonical(value: S) -> (r: Self)
        requires
            value.s_inv(),
        ensures
            r.inv(),
            r.model() == value.s_model(),
    {
        Quantity { canonical: value, dim: PhantomData }
    }

    /// The stored scalar, expressed in the canonical unit.
    pub fn canonical(&self) -> (r: S)
        requires
            self.inv(),
        ensures
            r.s_inv(),
            r.s_model() == self.model(),
    {
        self.canonical
    }

    /// Builds a quantity from a scalar expressed in the unit `u`: the value
    /// is converted to canonical form immediately, exactly
    /// `(value + offset) * scale` rounded once by the scalar. `None` exactly
    /// when that result is not representable.
    pub fn from_scalar(value: S, u: D::Unit) -> (r: Option<Self>)
        requires
            value.s_inv(),
        ensures
            r is Some <==> S::s_conv_to_ok(value.s_model(), u.conv_spec()),
            r matches Some(q) ==> q.inv() && q.model() == S::s_round(
                to_canonical_exact(u.conv_spec(), value.s_model()),
            ),
    {
        let c = u.conv();
        match value.s_to_canonical(&c) {
            None => None,
            Some(s) => Some(Quantity { canonical: s, dim: PhantomData }),
        }
    }

    /// Reads the quantity out in the unit `u`: exactly
    /// `canonical / scale - offset` rounded once by the scalar. `None`
    /// exactly when that result is not representable.
    pub fn to(&self, u: D::Unit) -> (r: Option<S>)
        requires
            self.inv(),
        ensures
            r is Some <==> S::s_conv_from_ok(self.model(), u.conv_spec()),
            r matches Some(s) ==> s.s_inv() && s.s_model() == S::s_round(
                from_canonical_exact(u.conv_spec(), self.model()),
            ),
    {
        let c = u.conv();
        self.canonical.s_from_canonical(&c)
    }

    /// Adds two quantities of the same dimension: exactly the sum of the
    /// canonical values, no conversion involved.
    pub fn add(self, rhs: Self) -> (r: Option<Self>)
        requires
            self.inv(),
            rhs.inv(),
        ensures
            r is Some <==> S::s_ops_ok(rat_add(self.model(), rhs.model())),
            r matches Some(q) ==> q.inv() && q.model() == S::s_round(
                rat_add(self.model(), rhs.model()),
            ),
    {
        match self.canonical.s_add(rhs.canonical) {
            None => None,
            Some(s) => Some(Quantity { canonical: s, dim: PhantomData }),
        }
    }

    /// Subtracts two quantities of the same dimension, exactly.
    pub fn sub(self, rhs: Self) -> (r: Option<Self>)
        requires
            self.inv(),
            rhs.inv(),
        ensures
            r is Some <==> S::s_ops_ok(rat_sub(self.model(), rhs.model())),
            r matches Some(q) ==> q.inv() && q.model() == S::s_round(
                rat_sub(self.model(), rhs.model()),
            ),
    {
        match self.canonical.s_sub(rhs.canonical) {
            None => None,
            Some(s) => Some(Quantity { canonical: s, dim: PhantomData }),
        }
    }

    /// Scales the quantity by a bare scalar; the dimension does not change.
    pub fn mul_scalar(self, k: S) -> (r: Option<Self>)
        requires
            self.inv(),
            k.s_inv(),
        ensures
            r is Some <==> S::s_ops_ok(rat_mul(self.model(), k.s_model())),
            r matches Some(q) ==> q.inv() && q.model() == S::s_round(
                rat_mul(self.model(), k.s_model()),
            ),
    {
        match self.canonical.s_mul(k) {
            None => None,
            Some(s) => Some(Quantity { canonical: s, dim: PhantomData }),
        }
    }

    /// Divides the quantity by a bare scalar; the dimension does not change.
    pub fn div_scalar(self, k: S) -> (r: Option<Self>)
        requires
            self.inv(),
            k.s_inv(),
        ensures
            r is Some <==> S::s_ops_ok(rat_div(self.model(), k.s_model())),
            r matches Some(q) ==> q.inv() && q.model() == S::s_round(
                rat_div(self.model(), k.s_model()),
            ),
    {
        match self.canonical.s_div(k) {
            None => None,
            Some(s) => Some(Quantity { canonical: s, dim: PhantomData }),
        }
    }

    /// Adds another quantity of the same dimension in place. When the sum is
    /// not representable, reports failure and leaves the quantity unchanged.
    pub fn add_assign(&mut self, rhs: Self) -> (ok: bool)
        requires
            old(self).inv(),
            rhs.inv(),
        ensures
            ok <==> S::s_ops_ok(rat_add(old(self).model(), rhs.model())),
            ok ==> final(self).inv() && final(self).model() == S::s_round(
                rat_add(old(self).model(), rhs.model()),
            ),
            !ok ==> *final(self) == *old(self),
    {
        let cur = *self;
        match cur.add(rhs) {
            None => false,
            Some(q) => {
                *self = q;
                true
            },
        }
    }

    /// Subtracts another quantity of the same dimension in place, reporting
    /// failure as `add_assign` does.
    pub fn sub_assign(&mut self, rhs: Self) -> (ok: bool)
        requires
            old(self).inv(),
            rhs.inv(),
        ensures
            ok <==> S::s_ops_ok(rat_sub(old(self).model(), rhs.model())),
            ok ==> final(self).inv() && final(self).model() == S::s_round(
                rat_sub(old(self).model(), rhs.model()),
            ),
            !ok ==> *final(self) == *old(self),
    {
        let cur = *self;
        match cur.sub(rhs) {
            None => false,
            Some(q) => {
                *self = q;
                true
            },
        }
    }

    /// Scales the quantity by a bare scalar in place, reporting failure as
    /// `add_assign` does.
    pub fn mul_assign_scalar(&mut self, k: S) -> (ok: bool)
        requires
            old(self).inv(),
            k.s_inv(),
        ensures
            ok <==> S::s_ops_ok(rat_mul(old(self).model(), k.s_model())),
            ok ==> final(self).inv() && final(self).model() == S::s_round(
                rat_mul(old(self).model(), k.s_model()),
            ),
            !ok ==> *final(self) == *old(self),
    {
        let cur = *self;
        match cur.mul_scalar(k) {
            None => false,
            Some(q) => {
                *self = q;
                true
            },
        }
    }

    /// Divides the quantity by a bare scalar in place, reporting failure as
    /// `add_assign` does; a zero divisor fails.
    pub fn div_assign_scalar(&mut self, k: S) -> (ok: bool)
        requires
            old(self).inv(),
            k.s_inv(),
        ensures
            ok <==> S::s_ops_ok(rat_div(old(self).model(), k.s_model())),
            ok ==> final(self).inv() && final(self).model() == S::s_round(
                rat_div(old(self).model(), k.s_model()),
            ),
            !ok ==> *final(self) == *old(self),
    {
        let cur = *self;
        match cur.div_scalar(k) {
            None => false,
            Some(q) => {
                *self = q;
                true
            },
        }
    }

    /// Builds a quantity from a value in a custom unit of `D`, supplied
    /// directly as its conversion pair. Such a unit composes with every
    /// declared operation of the dimension, since operations only ever touch
    /// canonical values.
    pub fn from_conv(value: S, c: &Conv) -> (r: Option<Self>)
        requires
            value.s_inv(),
            c.inv(),
        ensures
            r is Some <==> S::s_conv_to_ok(value.s_model(), c@),
            r matches Some(q) ==> q.inv() && q.model() == S::s_round(
                to_canonical_exact(c@, value.s_model()),
            ),
    {
        match value.s_to_canonical(c) {
            None => None,
            Some(s) => Some(Quantity { canonical: s, dim: PhantomData }),
        }
    }

    /// Reads the quantity out in a custom unit of `D`, supplied directly as
    /// its conversion pair.
    pub fn to_conv(&self, c: &Conv) -> (r: Option<S>)
        requires
            self.inv(),
            c.inv(),
        ensures
            r is Some <==> S::s_conv_from_ok(self.model(), c@),
            r matches Some(s) ==> s.s_inv() && s.s_model() == S::s_round(
                from_canonical_exact(c@, self.model()),
            ),
    {
        self.canonical.s_from_canonical(c)
    }

    /// The amount of the unit `u` that makes up one canonical unit, for
    /// linear units only, as for `one`.
    pub fn one_canonical(u: D::Unit) -> (r: Option<S>)
        ensures
            r is Some <==> conv_is_linear(u.conv_spec()) && S::s_conv_from_ok(
                rat_int(1),
                u.conv_spec(),
            ),
            r matches Some(s) ==> s.s_inv() && s.s_model() == S::s_round(
                from_canonical_exact(u.conv_spec(), rat_int(1)),
            ),
    {
        let c = u.conv();
        if c.is_linear() {
            S::s_one().s_from_canonical(&c)
        } else {
            None
        }
    }

    /// The quantity with value one in the unit `u`, for linear units only:
    /// an affine unit's "one" would be meaningless, since affine conversions
    /// are not homogeneous, so it is refused.
    pub fn one(u: D::Unit) -> (r: Option<Self>)
        ensures
            r is Some <==> conv_is_linear(u.conv_spec()) && S::s_conv_to_ok(
                rat_int(1),
                u.conv_spec(),
            ),
            r matches Some(q) ==> q.inv() && q.model() == S::s_round(
                to_canonical_exact(u.conv_spec(), rat_int(1)),
            ),
    {
        let c = u.conv();
        if c.is_linear() {
            Self::from_scalar(S::s_one(), u)
        } else {
            None
        }
    }
}

impl<D: Dimension> Quantity<D, Rational> {
    /// Whether two quantities of the same dimension denote the same value.
    pub fn eq_value(&self, rhs: &Self) -> (r: bool)
        requires
            self.inv(),
            rhs.inv(),
        ensures
            r == rat_eq(self.model(), rhs.model()),
    {
        self.canonical.eq_value(&rhs.canonical)
    }

    /// Whether this quantity's value is strictly below the other's.
    pub fn lt_value(&self, rhs: &Self) -> (r: bool)
        requires
            self.inv(),
            rhs.inv(),
        ensures
            r == rat_lt(self.model(), rhs.model()),
    {
        self.canonical.lt_value(&rhs.canonical)
    }

    /// Exact quantities with equal values are stored identically: the stored
    /// scalar is always in canonical form.
    pub proof fn lemma_value_eq_is_eq(a: Self, b: Self)
        requires
            a.inv(),
            b.inv(),
            rat_eq(a.model(), b.model()),
        ensures
            a.model() == b.model(),
    {
        Rational::lemma_eq_is_value_eq(a.canonical, b.canonical);
    }
}

} // verus!
