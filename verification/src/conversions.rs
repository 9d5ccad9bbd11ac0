//! `From` conversions between the combinator types.
//!
//! Only the total conversions are offered through `From`: wrapping a
//! disjoint choice or a pair in the any-of-two type, and moving between a
//! pair and a tuple. The partial conversions, which fail on a mismatched
//! shape, are named methods with explicit contracts instead:
//! [`AnyOf::into_either`], [`AnyOf::into_both`], [`EitherOf::from_opt2`] and
//! [`BothOf::from_opt2`].

use vstd::prelude::*;

use crate::concepts::{Couple, Opt2};
use crate::either::EitherOf;
use crate::both::BothOf;
use crate::AnyOf;

verus! {

impl<L, R> From<EitherOf<L, R>> for AnyOf<L, R> {
    /// Wraps the disjoint choice in the `Either` case, as
    /// [`AnyOf::from_either`] does.
    fn from(value: EitherOf<L, R>) -> (r: Self) {
        AnyOf::from_either(value)
    }
}

impl<L, R> vstd::std_specs::convert::FromSpecImpl<EitherOf<L, R>> for AnyOf<L, R> {
    open spec fn obeys_from_spec() -> bool {
        true
    }

    open spec fn from_spec(v: EitherOf<L, R>) -> Self {
        AnyOf::Either(v)
    }
}

impl<L, R> From<BothOf<L, R>> for AnyOf<L, R> {
    /// Wraps the pair in the `Both` case, as [`AnyOf::from_both`] does.
    fn from(value: BothOf<L, R>) -> (r: Self) {
        AnyOf::from_both(value)
    }
}

impl<L, R> vstd::std_specs::convert::FromSpecImpl<BothOf<L, R>> for AnyOf<L, R> {
    open spec fn obeys_from_spec() -> bool {
        true
    }

    open spec fn from_spec(v: BothOf<L, R>) -> Self {
        AnyOf::Both(v)
    }
}

impl<L, R> From<Couple<L, R>> for BothOf<L, R> {
    /// Builds the pair from a tuple, as [`BothOf::from_couple`] does.
    fn from(value: Couple<L, R>) -> (r: Self) {
        BothOf::from_couple(value)
    }
}

impl<L, R> vstd::std_specs::convert::FromSpecImpl<Couple<L, R>> for BothOf<L, R> {
    open spec fn obeys_from_spec() -> bool {
        true
    }

    open spec fn from_spec(v: Couple<L, R>) -> Self {
        BothOf { left: v.0, right: v.1 }
    }
}

impl<L, R> From<Couple<L, R>> for AnyOf<L, R> {
    /// Builds the `Both` case from a tuple of the two payloads.
    fn from(value: Couple<L, R>) -> (r: Self) {
        AnyOf::from_both(BothOf::from_couple(value))
    }
}

impl<L, R> vstd::std_specs::convert::FromSpecImpl<Couple<L, R>> for AnyOf<L, R> {
    open spec fn obeys_from_spec() -> bool {
        true
    }

    open spec fn from_spec(v: Couple<L, R>) -> Self {
        AnyOf::Both(BothOf { left: v.0, right: v.1 })
    }
}

impl<L, R> From<Opt2<L, R>> for AnyOf<L, R> {
    /// Builds the canonical value from a pair of options, as
    /// [`AnyOf::from_opt2`] does.
    fn from(value: Opt2<L, R>) -> (r: Self) {
        AnyOf::from_opt2(value)
    }
}

impl<L, R> vstd::std_specs::convert::FromSpecImpl<Opt2<L, R>> for AnyOf<L, R> {
    open spec fn obeys_from_spec() -> bool {
        true
    }

    open spec fn from_spec(v: Opt2<L, R>) -> Self {
        AnyOf::spec_new(v.0, v.1)
    }
}

} // verus!
