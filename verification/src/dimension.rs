//! The dimension and unit model.
//!
//! A *dimension* is a physical quantity family (length, time, force, ...),
//! represented by a marker type. Each dimension owns a closed set of *units*,
//! an enumeration; every unit carries the conversion between itself and the
//! dimension's single canonical unit. The canonical unit always exists and
//! converts by the identity.

use vstd::prelude::*;

use crate::convert::{conv_is_identity, conv_wf, Conv, ConvData};

verus! {

/// A unit of some dimension: a named scale (and optional offset) with a
/// bidirectional conversion to the dimension's canonical unit.
pub trait UnitOf: Sized + Copy {
    /// The conversion between this unit and the canonical unit.
    spec fn conv_spec(self) -> ConvData;

    /// Every declared conversion is invertible.
    proof fn lemma_conv_wf(self)
        ensures
            conv_wf(self.conv_spec()),
    ;

    /// The conversion table, executable form.
    fn conv(self) -> (c: Conv)
        ensures
            c.inv(),
            c@ == self.conv_spec(),
    ;
}

/// A physical quantity family with its closed set of units, one of which is
/// canonical.
pub trait Dimension {
    /// The units of this dimension.
    type Unit: UnitOf;

    /// The designated canonical unit, in which values are stored.
    spec fn canonical_unit_spec() -> Self::Unit;

    /// The canonical unit converts by the identity.
    proof fn lemma_canonical_identity()
        ensures
            conv_is_identity(Self::canonical_unit_spec().conv_spec()),
    ;

    /// The canonical unit, executable form.
    fn canonical_unit() -> (u: Self::Unit)
        ensures
            u == Self::canonical_unit_spec(),
    ;
}

} // verus!
