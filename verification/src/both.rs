//! The pair type `BothOf`: two values, both always present.

use vstd::prelude::*;

use crate::concepts::{Couple, LeftOrRight, MapOf, Opt2, Swap, Unwrap};
use crate::either::EitherOf;

verus! {

/// A plain pair of a left and a right value.
#[derive(Copy, Clone, Eq, PartialEq, Debug, Hash)]
pub struct BothOf<L, R = L> {
    pub left: L,
    pub right: R,
}

impl<L, R> BothOf<L, R> {
    /// Creates a pair from its two components.
    pub fn new(left: L, right: R) -> (r: Self)
        ensures
            r == (BothOf { left, right }),
    {
        BothOf { left, right }
    }

    /// Creates a pair from a two-element tuple.
    pub fn from_couple(couple: Couple<L, R>) -> (r: Self)
        ensures
            r == (BothOf { left: couple.0, right: couple.1 }),
    {
        BothOf { left: couple.0, right: couple.1 }
    }

    /// Converts the pair into a two-element tuple.
    pub fn into_couple(self) -> (r: Couple<L, R>)
        ensures
            r == (self.left, self.right),
    {
        (self.left, self.right)
    }

    /// Projects the pair onto its left component, discarding the right.
    ///
    /// The loss of the right value is intentional: the result is the `Left`
    /// case of the disjoint choice.
    pub fn into_left(self) -> (r: EitherOf<L, R>)
        ensures
            r == EitherOf::<L, R>::Left(self.left),
    {
        EitherOf::Left(self.left)
    }

    /// Projects the pair onto its right component, discarding the left.
    pub fn into_right(self) -> (r: EitherOf<L, R>)
        ensures
            r == EitherOf::<L, R>::Right(self.right),
    {
        EitherOf::Right(self.right)
    }

    /// Builds a pair from a pair of options, requiring both to be present.
    ///
    /// Returns `None` when either side is missing: a pair cannot represent
    /// an absent value.
    pub fn from_opt2(opt: Opt2<L, R>) -> (r: Option<Self>)
        ensures
            match opt {
                (Some(l), Some(v)) => r == Some(BothOf { left: l, right: v }),
                _ => r is None,
            },
    {
        match opt {
            (Some(l), Some(r)) => Some(BothOf { left: l, right: r }),
            _ => None,
        }
    }

    /// Converts the pair into a pair of options, cloning both components.
    pub fn to_opt2(&self) -> (r: Opt2<L, R>) where L: Clone, R: Clone
        ensures
            r.0 matches Some(lc) && cloned(self.left, lc),
            r.1 matches Some(vc) && cloned(self.right, vc),
    {
        (Some(self.left.clone()), Some(self.right.clone()))
    }

    /// Transforms the left component, keeping the right one.
    pub fn map_left<FL: FnOnce(L) -> L2, L2>(self, f: FL) -> (r: BothOf<L2, R>)
        requires
            call_requires(f, (self.left,)),
        ensures
            call_ensures(f, (self.left,), r.left),
            r.right == self.right,
    {
        BothOf { left: f(self.left), right: self.right }
    }

    /// Transforms the right component, keeping the left one.
    pub fn map_right<FR: FnOnce(R) -> R2, R2>(self, f: FR) -> (r: BothOf<L, R2>)
        requires
            call_requires(f, (self.right,)),
        ensures
            r.left == self.left,
            call_ensures(f, (self.right,), r.right),
    {
        BothOf { left: self.left, right: f(self.right) }
    }
}

impl<L, R> LeftOrRight<L, R> for BothOf<L, R> {
    open spec fn spec_left(&self) -> Option<L> {
        Some(self.left)
    }

    open spec fn spec_right(&self) -> Option<R> {
        Some(self.right)
    }

    open spec fn spec_is_left(&self) -> bool {
        true
    }

    open spec fn spec_is_right(&self) -> bool {
        true
    }

    fn left(&self) -> (r: Option<&L>) {
        Some(&self.left)
    }

    fn right(&self) -> (r: Option<&R>) {
        Some(&self.right)
    }

    fn is_left(&self) -> (r: bool) {
        true
    }

    fn is_right(&self) -> (r: bool) {
        true
    }
}

impl<L, R> Swap<L, R> for BothOf<L, R> {
    type Output = BothOf<R, L>;

    open spec fn spec_swap(self) -> BothOf<R, L> {
        BothOf { left: self.right, right: self.left }
    }

    fn swap(self) -> (r: BothOf<R, L>) {
        BothOf { left: self.right, right: self.left }
    }
}

impl<L, R> core::ops::Not for BothOf<L, R> {
    type Output = BothOf<R, L>;

    /// Exchanges the two components, as [`Swap::swap`] does.
    fn not(self) -> (r: BothOf<R, L>) {
        BothOf { left: self.right, right: self.left }
    }
}

impl<L, R> vstd::std_specs::ops::NotSpecImpl for BothOf<L, R> {
    open spec fn obeys_not_spec() -> bool {
        true
    }

    open spec fn not_req(self) -> bool {
        true
    }

    open spec fn not_spec(self) -> BothOf<R, L> {
        self.spec_swap()
    }
}

impl<L, R, L2, R2> MapOf<L, R, L2, R2> for BothOf<L, R> {
    type Output = BothOf<L2, R2>;

    fn map<FL: FnOnce(L) -> L2, FR: FnOnce(R) -> R2>(self, fl: FL, fr: FR) -> (r: BothOf<
        L2,
        R2,
    >) {
        BothOf { left: fl(self.left), right: fr(self.right) }
    }
}

impl<L, R> Unwrap<L, R> for BothOf<L, R> {
    fn left_or_else<F: FnOnce() -> L>(self, _f: F) -> (r: L) {
        self.left
    }

    fn right_or_else<F: FnOnce() -> R>(self, _f: F) -> (r: R) {
        self.right
    }

    fn expect_left(self, _msg: &str) -> (r: L) {
        self.left
    }

    fn expect_right(self, _msg: &str) -> (r: R) {
        self.right
    }
}

/// Swap involution law: exchanging the two components twice restores the
/// original pair.
pub proof fn lemma_both_of_swap_involutive<L, R>(x: BothOf<L, R>)
    ensures
        x.spec_swap().spec_swap() == x,
{
}

/// Map identity law: any result that the contract of [`MapOf::map`] admits
/// for two functions that behave as the identity is the input itself.
pub proof fn lemma_both_of_map_identity<L, R, FL: FnOnce(L) -> L, FR: FnOnce(R) -> R>(
    x: BothOf<L, R>,
    fl: FL,
    fr: FR,
    y: BothOf<L, R>,
)
    requires
        forall|a: L, b: L| call_ensures(fl, (a,), b) ==> b == a,
        forall|a: R, b: R| call_ensures(fr, (a,), b) ==> b == a,
        match x.spec_left() {
            Some(l) => y.spec_left() matches Some(l2) && call_ensures(fl, (l,), l2),
            None => y.spec_left() is None,
        },
        match x.spec_right() {
            Some(v) => y.spec_right() matches Some(v2) && call_ensures(fr, (v,), v2),
            None => y.spec_right() is None,
        },
    ensures
        y == x,
{
}

} // verus!
