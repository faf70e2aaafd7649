//! The laws of the unit system, proved once for every dimension, every unit
//! and every well-formed value.
//!
//! These statements are written over the exact rational model that all
//! contracts use. For the exact scalar, whose rounding is the canonical form
//! of the exact result, they transfer to the executable functions through
//! the contracts of `Quantity`: every `rat_canon` below is that scalar's
//! `s_round`.

use vstd::prelude::*;

use crate::convert::{
    from_canonical_exact, lemma_conv_identity, lemma_conv_round_trip,
    lemma_conv_round_trip_from, lemma_from_canonical_congruent, lemma_from_canonical_wf,
    lemma_to_canonical_congruent, lemma_to_canonical_wf, to_canonical_exact,
};
use crate::dimension::{Dimension, UnitOf};
use crate::rational::{lemma_canon_value, rat_canon};
use crate::ratio::{lemma_rat_eq_trans, rat_eq, rat_wf, Ratio};

verus! {

/// Round trip: for every declared unit of every dimension, linear or affine,
/// converting a value to the canonical unit and reading it back out in the
/// same unit restores the value exactly.
pub proof fn lemma_unit_round_trip<U: UnitOf>(u: U, v: Ratio)
    requires
        rat_wf(v),
    ensures
        rat_eq(from_canonical_exact(u.conv_spec(), to_canonical_exact(u.conv_spec(), v)), v),
{
    u.lemma_conv_wf();
    lemma_conv_round_trip(u.conv_spec(), v);
}

/// Canonical identity: for every dimension, the canonical unit's conversions
/// are the identity in both directions.
pub proof fn lemma_canonical_unit_identity<D: Dimension>(v: Ratio)
    requires
        rat_wf(v),
    ensures
        rat_eq(to_canonical_exact(D::canonical_unit_spec().conv_spec(), v), v),
        rat_eq(from_canonical_exact(D::canonical_unit_spec().conv_spec(), v), v),
{
    D::lemma_canonical_identity();
    D::canonical_unit_spec().lemma_conv_wf();
    lemma_conv_identity(D::canonical_unit_spec().conv_spec(), v);
}

/// Cross-unit consistency: two constructions that agree on the canonical
/// value read out equally in any third unit of the dimension, whichever
/// units they were built from.
pub proof fn lemma_cross_unit_consistency<U: UnitOf>(u: U, m1: Ratio, m2: Ratio)
    requires
        rat_wf(m1),
        rat_wf(m2),
        rat_eq(m1, m2),
    ensures
        rat_eq(from_canonical_exact(u.conv_spec(), m1), from_canonical_exact(u.conv_spec(), m2)),
{
    u.lemma_conv_wf();
    lemma_from_canonical_congruent(u.conv_spec(), m1, m2);
}

/// Exact construction round trip: building a quantity from a value in any
/// unit and reading it back out in that unit, with the exact scalar's
/// canonical rounding at each step, restores the value.
pub proof fn lemma_construct_readout_exact<U: UnitOf>(u: U, v: Ratio)
    requires
        rat_wf(v),
    ensures
        rat_eq(
            rat_canon(from_canonical_exact(u.conv_spec(), rat_canon(to_canonical_exact(u.conv_spec(), v)))),
            v,
        ),
{
    u.lemma_conv_wf();
    let c = u.conv_spec();
    let t = to_canonical_exact(c, v);
    lemma_to_canonical_wf(c, v);
    lemma_canon_value(t);
    // from(canon(t)) ~ from(t) ~ v.
    lemma_from_canonical_congruent(c, rat_canon(t), t);
    lemma_conv_round_trip(c, v);
    lemma_from_canonical_wf(c, t);
    lemma_rat_eq_trans(
        from_canonical_exact(c, rat_canon(t)),
        from_canonical_exact(c, t),
        v,
    );
    // canon(from(canon(t))) ~ from(canon(t)) ~ v.
    lemma_from_canonical_wf(c, rat_canon(t));
    lemma_canon_value(from_canonical_exact(c, rat_canon(t)));
    lemma_rat_eq_trans(
        rat_canon(from_canonical_exact(c, rat_canon(t))),
        from_canonical_exact(c, rat_canon(t)),
        v,
    );
}

/// Idempotence of identity conversion: reading a quantity out in any unit
/// and reconstructing a quantity from the result in the same unit restores
/// the canonical value, with the exact scalar's canonical rounding at each
/// step.
pub proof fn lemma_readout_reconstruct<U: UnitOf>(u: U, m: Ratio)
    requires
        rat_wf(m),
    ensures
        rat_eq(
            rat_canon(to_canonical_exact(u.conv_spec(), rat_canon(from_canonical_exact(u.conv_spec(), m)))),
            m,
        ),
{
    u.lemma_conv_wf();
    let c = u.conv_spec();
    let f = from_canonical_exact(c, m);
    lemma_from_canonical_wf(c, m);
    lemma_canon_value(f);
    lemma_to_canonical_congruent(c, rat_canon(f), f);
    lemma_conv_round_trip_from(c, m);
    crate::convert::lemma_to_canonical_nonzero(c, f);
    lemma_rat_eq_trans(
        to_canonical_exact(c, rat_canon(f)),
        to_canonical_exact(c, f),
        m,
    );
    lemma_to_canonical_wf(c, rat_canon(f));
    lemma_canon_value(to_canonical_exact(c, rat_canon(f)));
    lemma_rat_eq_trans(
        rat_canon(to_canonical_exact(c, rat_canon(f))),
        to_canonical_exact(c, rat_canon(f)),
        m,
    );
}

} // verus!
