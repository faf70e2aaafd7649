//! The operation graph: declared rules of the form "dimension `A` times (or
//! over) dimension `B` yields dimension `C`, read in unit `U`".
//!
//! Each rule is one trait implementation on the left dimension's marker type,
//! keyed by the right dimension; resolution is static, so multiplying or
//! dividing two dimensions with no declared rule does not compile. A rule
//! names the output unit in which the raw product or quotient of the two
//! canonical values is expressed; the result is then converted to the output
//! dimension's canonical unit through that unit's conversion, so an output
//! dimension's canonical unit need not be "one" with respect to the product
//! of the operand canonicals.

use vstd::prelude::*;

use crate::convert::to_canonical_exact;
use crate::dimension::{Dimension, UnitOf};
use crate::quantity::Quantity;
use crate::ratio::{rat_div, rat_mul};
use crate::scalar::Scalar;

verus! {

/// A declared rule `Self * R => Output in out_unit`.
pub trait CrossMul<R: Dimension>: Dimension {
    /// The dimension of the product.
    type Output: Dimension;

    /// The unit in which the raw product of canonical values is expressed.
    spec fn out_unit_spec() -> <Self::Output as Dimension>::Unit;

    /// The output unit, executable form.
    fn out_unit() -> (u: <Self::Output as Dimension>::Unit)
        ensures
            u == Self::out_unit_spec(),
    ;
}

/// A declared rule `Self / R => Output in out_unit`.
pub trait CrossDiv<R: Dimension>: Dimension {
    /// The dimension of the quotient.
    type Output: Dimension;

    /// The unit in which the raw quotient of canonical values is expressed.
    spec fn out_unit_spec() -> <Self::Output as Dimension>::Unit;

    /// The output unit, executable form.
    fn out_unit() -> (u: <Self::Output as Dimension>::Unit)
        ensures
            u == Self::out_unit_spec(),
    ;
}

impl<D: Dimension, S: Scalar> Quantity<D, S> {
    /// Multiplies quantities of two dimensions along the declared rule:
    /// the raw product of the canonical values, treated as a value in the
    /// rule's output unit and converted to the output dimension's canonical
    /// form. `None` exactly when either step is not representable.
    pub fn mul_dim<R: Dimension>(self, rhs: Quantity<R, S>) -> (r: Option<
        Quantity<<D as CrossMul<R>>::Output, S>,
    >) where D: CrossMul<R>
        requires
            self.inv(),
            rhs.inv(),
        ensures
            r is Some <==> S::s_ops_ok(rat_mul(self.model(), rhs.model()))
                && S::s_conv_to_ok(
                S::s_round(rat_mul(self.model(), rhs.model())),
                <D as CrossMul<R>>::out_unit_spec().conv_spec(),
            ),
            r matches Some(q) ==> q.inv() && q.model() == S::s_round(
                to_canonical_exact(
                    <D as CrossMul<R>>::out_unit_spec().conv_spec(),
                    S::s_round(rat_mul(self.model(), rhs.model())),
                ),
            ),
    {
        match self.canonical().s_mul(rhs.canonical()) {
            None => None,
            Some(p) => Quantity::<<D as CrossMul<R>>::Output, S>::from_scalar(
                p,
                <D as CrossMul<R>>::out_unit(),
            ),
        }
    }

    /// Divides quantities of two dimensions along the declared rule, the
    /// same way: raw quotient of canonical values, then the output unit's
    /// conversion.
    pub fn div_dim<R: Dimension>(self, rhs: Quantity<R, S>) -> (r: Option<
        Quantity<<D as CrossDiv<R>>::Output, S>,
    >) where D: CrossDiv<R>
        requires
            self.inv(),
            rhs.inv(),
        ensures
            r is Some <==> S::s_ops_ok(rat_div(self.model(), rhs.model()))
                && S::s_conv_to_ok(
                S::s_round(rat_div(self.model(), rhs.model())),
                <D as CrossDiv<R>>::out_unit_spec().conv_spec(),
            ),
            r matches Some(q) ==> q.inv() && q.model() == S::s_round(
                to_canonical_exact(
                    <D as CrossDiv<R>>::out_unit_spec().conv_spec(),
                    S::s_round(rat_div(self.model(), rhs.model())),
                ),
            ),
    {
        match self.canonical().s_div(rhs.canonical()) {
            None => None,
            Some(p) => Quantity::<<D as CrossDiv<R>>::Output, S>::from_scalar(
                p,
                <D as CrossDiv<R>>::out_unit(),
            ),
        }
    }
}

} // verus!
