//! Algebraic sum/product combinators.
//!
//! The crate offers three two-sided value types and their algebra:
//!
//! - [`EitherOf`]: exactly one of two values (`Left` or `Right`);
//! - [`BothOf`]: both of two values, always present;
//! - [`AnyOf`]: zero, one, or both of two values (`Neither`, `Either`, `Both`).
//!
//! Higher-arity combinators ([`AnyOf4`], `AnyOf8`, `AnyOf16`) are built by
//! nesting [`AnyOf`], with flattened per-leaf accessors named after the
//! left/right path to each leaf.
//!
//! Every operation carries a contract that pins its result down exactly, and
//! the algebraic laws of the types (round-trips, involution of `swap`, the
//! identity behaviour of `combine` with `Neither`, the canonical collapse of
//! the arity constructors) are stated and proved alongside the code.

use vstd::prelude::*;

pub mod concepts;

pub mod either;

pub mod both;

pub mod any_of_x;

pub mod conversions;

pub use crate::any_of_x::{AnyOf16, AnyOf4, AnyOf8};
pub use crate::concepts::{Opt16, Opt4, Opt8};
pub use crate::concepts::{Couple, LeftOrRight, MapOf, Opt2, Pair, Swap, Unwrap};
pub use crate::either::EitherOf;
pub use crate::either::EitherOf::{Left, Right};
pub use crate::both::BothOf;
pub use crate::AnyOf::{Both, Either, Neither};

verus! {

/// A value that holds any combination of a left and a right payload.
///
/// # Cases
///
/// - `Neither`: no payload at all.
/// - `Either`: exactly one payload, wrapped in a disjoint choice.
/// - `Both`: both payloads, wrapped in a pair.
///
/// The representation is canonical: each of the four presence combinations
/// (none, left only, right only, both) has exactly one encoding.
#[derive(Copy, Clone, Eq, PartialEq, Debug, Hash)]
pub enum AnyOf<L, R = L> {
    Neither,
    Either(EitherOf<L, R>),
    Both(BothOf<L, R>),
}

impl<L, R> AnyOf<L, R> {
    /// The canonical value holding the given optional payloads.
    pub open spec fn spec_new(left: Option<L>, right: Option<R>) -> Self {
        match (left, right) {
            (None, None) => AnyOf::Neither,
            (Some(l), None) => AnyOf::Either(EitherOf::Left(l)),
            (None, Some(r)) => AnyOf::Either(EitherOf::Right(r)),
            (Some(l), Some(r)) => AnyOf::Both(BothOf { left: l, right: r }),
        }
    }

    /// Creates the canonical value holding the given optional payloads.
    ///
    /// Each of the four input combinations maps to its own case: `Neither`
    /// for two `None`s, the matching `Either` case for a single value, and
    /// `Both` when both are present.
    pub fn new(left: Option<L>, right: Option<R>) -> (r: Self)
        ensures
            r == Self::spec_new(left, right),
    {
        match (left, right) {
            (None, None) => AnyOf::Neither,
            (Some(l), None) => AnyOf::Either(EitherOf::Left(l)),
            (None, Some(r)) => AnyOf::Either(EitherOf::Right(r)),
            (Some(l), Some(r)) => AnyOf::Both(BothOf { left: l, right: r }),
        }
    }

    /// Creates the `Neither` case.
    pub fn new_neither() -> (r: Self)
        ensures
            r == AnyOf::<L, R>::Neither,
    {
        Self::new(None, None)
    }

    /// Creates the exclusive-left case.
    pub fn new_left(left: L) -> (r: Self)
        ensures
            r == AnyOf::<L, R>::Either(EitherOf::Left(left)),
    {
        Self::new(Some(left), None)
    }

    /// Creates the exclusive-right case.
    pub fn new_right(right: R) -> (r: Self)
        ensures
            r == AnyOf::<L, R>::Either(EitherOf::Right(right)),
    {
        Self::new(None, Some(right))
    }

    /// Creates the `Both` case from the two payloads.
    pub fn new_both(l: L, r: R) -> (res: Self)
        ensures
            res == AnyOf::<L, R>::Both(BothOf { left: l, right: r }),
    {
        Self::new(Some(l), Some(r))
    }

    /// Creates the `Both` case from a pair.
    pub fn from_both(both: BothOf<L, R>) -> (r: Self)
        ensures
            r == AnyOf::<L, R>::Both(both),
    {
        Self::new(Some(both.left), Some(both.right))
    }

    /// Creates the canonical value holding the payloads of a pair of options.
    ///
    /// See [`Self::new`].
    pub fn from_opt2(opt: Opt2<L, R>) -> (r: Self)
        ensures
            r == Self::spec_new(opt.0, opt.1),
    {
        Self::new(opt.0, opt.1)
    }

    /// Creates the canonical value holding the payloads of a pair of options.
    ///
    /// See [`Self::new`].
    pub fn from_any(any: Opt2<L, R>) -> (r: Self)
        ensures
            r == Self::spec_new(any.0, any.1),
    {
        Self::new(any.0, any.1)
    }

    /// Wraps a disjoint choice in the `Either` case.
    pub fn from_either(either: EitherOf<L, R>) -> (r: Self)
        ensures
            r == AnyOf::<L, R>::Either(either),
    {
        AnyOf::Either(either)
    }

    /// Extracts the pair held by the `Both` case.
    ///
    /// The shape must match: callers must establish that the value is in the
    /// `Both` case before converting.
    pub fn into_both(self) -> (r: BothOf<L, R>)
        requires
            self is Both,
        ensures
            self == AnyOf::<L, R>::Both(r),
    {
        match self {
            AnyOf::Both(b) => b,
            _ => vstd::pervasive::unreached(),
        }
    }

    /// Extracts the disjoint choice held by the `Either` case.
    ///
    /// The shape must match: callers must establish that the value is in the
    /// `Either` case before converting.
    pub fn into_either(self) -> (r: EitherOf<L, R>)
        requires
            self is Either,
        ensures
            self == AnyOf::<L, R>::Either(r),
    {
        match self {
            AnyOf::Either(e) => e,
            _ => vstd::pervasive::unreached(),
        }
    }

    /// Converts the value into a pair of optional disjoint choices, cloning
    /// the payloads.
    ///
    /// A held left payload appears as `Some(Left(..))` in the first slot, a
    /// held right payload as `Some(Right(..))` in the second; absent sides
    /// are `None`.
    pub fn to_either_pair(&self) -> (r: Pair<Option<EitherOf<L, R>>>) where L: Clone, R: Clone
        ensures
            match self.spec_left() {
                Some(l) => r.0 matches Some(EitherOf::Left(lc)) && cloned(l, lc),
                None => r.0 is None,
            },
            match self.spec_right() {
                Some(v) => r.1 matches Some(EitherOf::Right(vc)) && cloned(v, vc),
                None => r.1 is None,
            },
    {
        let left = match self.left() {
            Some(l) => Some(EitherOf::Left(l.clone())),
            None => None,
        };
        let right = match self.right() {
            Some(v) => Some(EitherOf::Right(v.clone())),
            None => None,
        };
        (left, right)
    }

    /// Converts the value into a pair of options, cloning the payloads.
    pub fn to_opt2(&self) -> (r: Opt2<L, R>) where L: Clone, R: Clone
        ensures
            match self.spec_left() {
                Some(l) => r.0 matches Some(lc) && cloned(l, lc),
                None => r.0 is None,
            },
            match self.spec_right() {
                Some(v) => r.1 matches Some(vc) && cloned(v, vc),
                None => r.1 is None,
            },
    {
        let left = match self.left() {
            Some(l) => Some(l.clone()),
            None => None,
        };
        let right = match self.right() {
            Some(v) => Some(v.clone()),
            None => None,
        };
        (left, right)
    }

    /// Transforms the left payload if present, keeping the shape of the
    /// value.
    pub fn map_left<FL: FnOnce(L) -> L2, L2>(self, f: FL) -> (r: AnyOf<L2, R>)
        requires
            self.spec_left() matches Some(l) ==> call_requires(f, (l,)),
        ensures
            match self {
                AnyOf::Neither => r == AnyOf::<L2, R>::Neither,
                AnyOf::Either(EitherOf::Left(l)) => r matches AnyOf::Either(EitherOf::Left(l2))
                    && call_ensures(f, (l,), l2),
                AnyOf::Either(EitherOf::Right(v)) => r == AnyOf::<L2, R>::Either(
                    EitherOf::Right(v),
                ),
                AnyOf::Both(b) => r matches AnyOf::Both(b2) && b2.right == b.right
                    && call_ensures(f, (b.left,), b2.left),
            },
    {
        match self {
            AnyOf::Neither => AnyOf::Neither,
            AnyOf::Either(EitherOf::Left(l)) => AnyOf::Either(EitherOf::Left(f(l))),
            AnyOf::Either(EitherOf::Right(v)) => AnyOf::Either(EitherOf::Right(v)),
            AnyOf::Both(b) => AnyOf::Both(BothOf { left: f(b.left), right: b.right }),
        }
    }

    /// Transforms the right payload if present, keeping the shape of the
    /// value.
    pub fn map_right<FR: FnOnce(R) -> R2, R2>(self, f: FR) -> (r: AnyOf<L, R2>)
        requires
            self.spec_right() matches Some(v) ==> call_requires(f, (v,)),
        ensures
            match self {
                AnyOf::Neither => r == AnyOf::<L, R2>::Neither,
                AnyOf::Either(EitherOf::Left(l)) => r == AnyOf::<L, R2>::Either(
                    EitherOf::Left(l),
                ),
                AnyOf::Either(EitherOf::Right(v)) => r matches AnyOf::Either(EitherOf::Right(v2))
                    && call_ensures(f, (v,), v2),
                AnyOf::Both(b) => r matches AnyOf::Both(b2) && b2.left == b.left && call_ensures(
                    f,
                    (b.right,),
                    b2.right,
                ),
            },
    {
        match self {
            AnyOf::Neither => AnyOf::Neither,
            AnyOf::Either(EitherOf::Left(l)) => AnyOf::Either(EitherOf::Left(l)),
            AnyOf::Either(EitherOf::Right(v)) => AnyOf::Either(EitherOf::Right(f(v))),
            AnyOf::Both(b) => AnyOf::Both(BothOf { left: b.left, right: f(b.right) }),
        }
    }

    /// True if the value holds a left payload, exclusively or as part of
    /// `Both`.
    pub fn has_left(&self) -> (r: bool)
        ensures
            r == (self.spec_left() is Some),
    {
        matches!(self, AnyOf::Either(EitherOf::Left(_)) | AnyOf::Both(_))
    }

    /// True if the value holds a right payload, exclusively or as part of
    /// `Both`.
    pub fn has_right(&self) -> (r: bool)
        ensures
            r == (self.spec_right() is Some),
    {
        matches!(self, AnyOf::Either(EitherOf::Right(_)) | AnyOf::Both(_))
    }

    /// True if the value holds at least one payload.
    pub fn is_any(&self) -> (r: bool)
        ensures
            r == !(self is Neither),
    {
        matches!(self, AnyOf::Either(_) | AnyOf::Both(_))
    }

    /// True if the value holds exactly one payload.
    pub fn is_either(&self) -> (r: bool)
        ensures
            r == (self is Either),
    {
        matches!(self, AnyOf::Either(_))
    }

    /// True if the value holds both payloads.
    pub fn is_both(&self) -> (r: bool)
        ensures
            r == (self is Both),
    {
        matches!(self, AnyOf::Both(_))
    }

    /// True if the value holds no payload.
    pub fn is_neither(&self) -> (r: bool)
        ensures
            r == (self is Neither),
    {
        matches!(self, AnyOf::Neither)
    }

    /// True if the value holds no payload or both payloads.
    pub fn is_neither_or_both(&self) -> (r: bool)
        ensures
            r == (self is Neither || self is Both),
    {
        matches!(self, AnyOf::Neither | AnyOf::Both(_))
    }

    /// Returns references to the two payloads if both are present, `None`
    /// otherwise.
    pub fn both_or_none(&self) -> (r: Option<Couple<&L, &R>>)
        ensures
            match r {
                Some(c) => self == AnyOf::<L, R>::Both(BothOf { left: *c.0, right: *c.1 }),
                None => !(self is Both),
            },
    {
        match self {
            AnyOf::Both(b) => Some((&b.left, &b.right)),
            _ => None,
        }
    }

    /// Returns the held payloads as a pair, completing any missing side from
    /// the pair that the given function produces.
    pub fn both_or_else<F: FnOnce() -> BothOf<L, R>>(self, f: F) -> (r: BothOf<L, R>)
        requires
            !(self is Both) ==> call_requires(f, ()),
        ensures
            self matches AnyOf::Both(b) ==> r == b,
            self is Neither ==> call_ensures(f, (), r),
            self matches AnyOf::Either(EitherOf::Left(l)) ==> r.left == l && (exists|
                d: BothOf<L, R>,
            | call_ensures(f, (), d) && r.right == d.right),
            self matches AnyOf::Either(EitherOf::Right(v)) ==> r.right == v && (exists|
                d: BothOf<L, R>,
            | call_ensures(f, (), d) && r.left == d.left),
    {
        match self {
            AnyOf::Neither => f(),
            AnyOf::Either(EitherOf::Left(l)) => BothOf::new(l, f().right),
            AnyOf::Either(EitherOf::Right(r)) => BothOf::new(f().left, r),
            AnyOf::Both(b) => b,
        }
    }

    /// Returns the held payloads as a pair, completing any missing side from
    /// the given default pair.
    pub fn both_or(self, other: BothOf<L, R>) -> (r: BothOf<L, R>)
        ensures
            r == match self {
                AnyOf::Neither => other,
                AnyOf::Either(EitherOf::Left(l)) => BothOf { left: l, right: other.right },
                AnyOf::Either(EitherOf::Right(v)) => BothOf { left: other.left, right: v },
                AnyOf::Both(b) => b,
            },
    {
        match self {
            AnyOf::Neither => other,
            AnyOf::Either(EitherOf::Left(l)) => BothOf { left: l, right: other.right },
            AnyOf::Either(EitherOf::Right(r)) => BothOf { left: other.left, right: r },
            AnyOf::Both(b) => b,
        }
    }

    /// Extracts the pair held by the `Both` case.
    ///
    /// The shape must match: callers must establish that both payloads are
    /// present.
    pub fn unwrap_both(self) -> (r: BothOf<L, R>)
        requires
            self is Both,
        ensures
            self == AnyOf::<L, R>::Both(r),
    {
        match self {
            AnyOf::Both(b) => b,
            _ => vstd::pervasive::unreached(),
        }
    }

    /// The projection of a value onto its left side.
    pub open spec fn spec_filter_left(self) -> Self {
        match self {
            AnyOf::Neither => AnyOf::Neither,
            AnyOf::Either(EitherOf::Left(l)) => AnyOf::Either(EitherOf::Left(l)),
            AnyOf::Either(EitherOf::Right(_)) => AnyOf::Neither,
            AnyOf::Both(b) => AnyOf::Either(EitherOf::Left(b.left)),
        }
    }

    /// Keeps only the left payload if present; the right payload is dropped.
    pub fn filter_left(self) -> (r: Self)
        ensures
            r == self.spec_filter_left(),
    {
        match self {
            AnyOf::Neither => AnyOf::Neither,
            AnyOf::Either(EitherOf::Left(l)) => AnyOf::Either(EitherOf::Left(l)),
            AnyOf::Either(EitherOf::Right(_)) => AnyOf::Neither,
            AnyOf::Both(b) => AnyOf::Either(EitherOf::Left(b.left)),
        }
    }

    /// The projection of a value onto its right side.
    pub open spec fn spec_filter_right(self) -> Self {
        match self {
            AnyOf::Neither => AnyOf::Neither,
            AnyOf::Either(EitherOf::Left(_)) => AnyOf::Neither,
            AnyOf::Either(EitherOf::Right(r)) => AnyOf::Either(EitherOf::Right(r)),
            AnyOf::Both(b) => AnyOf::Either(EitherOf::Right(b.right)),
        }
    }

    /// Keeps only the right payload if present; the left payload is dropped.
    pub fn filter_right(self) -> (r: Self)
        ensures
            r == self.spec_filter_right(),
    {
        match self {
            AnyOf::Neither => AnyOf::Neither,
            AnyOf::Either(EitherOf::Left(_)) => AnyOf::Neither,
            AnyOf::Either(EitherOf::Right(r)) => AnyOf::Either(EitherOf::Right(r)),
            AnyOf::Both(b) => AnyOf::Either(EitherOf::Right(b.right)),
        }
    }

    /// The value with its right slot set to the given payload.
    pub open spec fn spec_with_right(self, right: R) -> Self {
        match self {
            AnyOf::Neither => AnyOf::Either(EitherOf::Right(right)),
            AnyOf::Either(EitherOf::Left(l)) => AnyOf::Both(BothOf { left: l, right }),
            AnyOf::Either(EitherOf::Right(_)) => AnyOf::Either(EitherOf::Right(right)),
            AnyOf::Both(b) => AnyOf::Both(BothOf { left: b.left, right }),
        }
    }

    /// Adds or replaces the right payload, preserving any left payload.
    pub fn with_right(self, right: R) -> (r: Self)
        ensures
            r == self.spec_with_right(right),
    {
        match self {
            AnyOf::Neither => AnyOf::Either(EitherOf::Right(right)),
            AnyOf::Either(EitherOf::Left(l)) => AnyOf::Both(BothOf { left: l, right }),
            AnyOf::Either(EitherOf::Right(_)) => AnyOf::Either(EitherOf::Right(right)),
            AnyOf::Both(b) => AnyOf::Both(BothOf { left: b.left, right }),
        }
    }

    /// The value with its left slot set to the given payload.
    pub open spec fn spec_with_left(self, left: L) -> Self {
        match self {
            AnyOf::Neither => AnyOf::Either(EitherOf::Left(left)),
            AnyOf::Either(EitherOf::Left(_)) => AnyOf::Either(EitherOf::Left(left)),
            AnyOf::Either(EitherOf::Right(r)) => AnyOf::Both(BothOf { left, right: r }),
            AnyOf::Both(b) => AnyOf::Both(BothOf { left, right: b.right }),
        }
    }

    /// Adds or replaces the left payload, preserving any right payload.
    pub fn with_left(self, left: L) -> (r: Self)
        ensures
            r == self.spec_with_left(left),
    {
        match self {
            AnyOf::Neither => AnyOf::Either(EitherOf::Left(left)),
            AnyOf::Either(EitherOf::Left(_)) => AnyOf::Either(EitherOf::Left(left)),
            AnyOf::Either(EitherOf::Right(r)) => AnyOf::Both(BothOf { left, right: r }),
            AnyOf::Both(b) => AnyOf::Both(BothOf { left, right: b.right }),
        }
    }

    /// The combination of two values: prefer filled slots, with the left
    /// operand winning ties.
    pub open spec fn spec_combine(self, other: Self) -> Self {
        match self {
            AnyOf::Neither => other,
            AnyOf::Either(EitherOf::Left(l)) => match other {
                AnyOf::Neither => AnyOf::Either(EitherOf::Left(l)),
                AnyOf::Either(EitherOf::Left(_)) => AnyOf::Either(EitherOf::Left(l)),
                AnyOf::Either(EitherOf::Right(r)) => AnyOf::Both(BothOf { left: l, right: r }),
                AnyOf::Both(b) => AnyOf::Both(BothOf { left: l, right: b.right }),
            },
            AnyOf::Either(EitherOf::Right(r)) => match other {
                AnyOf::Neither => AnyOf::Either(EitherOf::Right(r)),
                AnyOf::Either(EitherOf::Left(l)) => AnyOf::Both(BothOf { left: l, right: r }),
                AnyOf::Either(EitherOf::Right(_)) => AnyOf::Either(EitherOf::Right(r)),
                AnyOf::Both(b) => AnyOf::Both(BothOf { left: b.left, right: r }),
            },
            AnyOf::Both(b) => AnyOf::Both(b),
        }
    }

    /// Combines two values, preferring filled slots.
    ///
    /// `Neither` is the identity on either side. `Both` as the left operand
    /// wins outright. Two disjoint single sides merge into `Both`, and two
    /// single sides of the same kind keep the left operand's payload: the
    /// left operand has priority on ties.
    pub fn combine(self, other: Self) -> (r: Self)
        ensures
            r == self.spec_combine(other),
    {
        match self {
            AnyOf::Neither => other,
            AnyOf::Either(EitherOf::Left(l)) => match other {
                AnyOf::Neither => AnyOf::Either(EitherOf::Left(l)),
                AnyOf::Either(EitherOf::Left(_)) => AnyOf::Either(EitherOf::Left(l)),
                AnyOf::Either(EitherOf::Right(r)) => AnyOf::Both(BothOf { left: l, right: r }),
                AnyOf::Both(b) => AnyOf::Both(BothOf { left: l, right: b.right }),
            },
            AnyOf::Either(EitherOf::Right(r)) => match other {
                AnyOf::Neither => AnyOf::Either(EitherOf::Right(r)),
                AnyOf::Either(EitherOf::Left(l)) => AnyOf::Both(BothOf { left: l, right: r }),
                AnyOf::Either(EitherOf::Right(_)) => AnyOf::Either(EitherOf::Right(r)),
                AnyOf::Both(b) => AnyOf::Both(BothOf { left: b.left, right: r }),
            },
            AnyOf::Both(b) => AnyOf::Both(b),
        }
    }

    /// The value masked by the shape of another: the mask's filled slots are
    /// removed from the value.
    pub open spec fn spec_filter(self, other: Self) -> Self {
        match other {
            AnyOf::Neither => self,
            AnyOf::Either(EitherOf::Left(_)) => self.spec_filter_right(),
            AnyOf::Either(EitherOf::Right(_)) => self.spec_filter_left(),
            AnyOf::Both(_) => AnyOf::Neither,
        }
    }

    /// Filters the value by the shape of another value.
    ///
    /// Only the shape of the mask matters, never its payloads: a `Neither`
    /// mask keeps the value unchanged, a `Both` mask removes everything, and
    /// a single-sided mask removes that side from the value.
    pub fn filter(self, other: Self) -> (r: Self)
        ensures
            r == self.spec_filter(other),
    {
        match other {
            AnyOf::Neither => self,
            AnyOf::Either(EitherOf::Left(_)) => self.filter_right(),
            AnyOf::Either(EitherOf::Right(_)) => self.filter_left(),
            AnyOf::Both(_) => AnyOf::Neither,
        }
    }
}

impl<L, R> LeftOrRight<L, R> for AnyOf<L, R> {
    open spec fn spec_left(&self) -> Option<L> {
        match self {
            AnyOf::Neither => None,
            AnyOf::Either(e) => e.spec_left(),
            AnyOf::Both(b) => Some(b.left),
        }
    }

    open spec fn spec_right(&self) -> Option<R> {
        match self {
            AnyOf::Neither => None,
            AnyOf::Either(e) => e.spec_right(),
            AnyOf::Both(b) => Some(b.right),
        }
    }

    open spec fn spec_is_left(&self) -> bool {
        self matches AnyOf::Either(EitherOf::Left(_))
    }

    open spec fn spec_is_right(&self) -> bool {
        self matches AnyOf::Either(EitherOf::Right(_))
    }

    fn left(&self) -> (r: Option<&L>) {
        match self {
            AnyOf::Neither => None,
            AnyOf::Either(e) => e.left(),
            AnyOf::Both(b) => Some(&b.left),
        }
    }

    fn right(&self) -> (r: Option<&R>) {
        match self {
            AnyOf::Neither => None,
            AnyOf::Either(e) => e.right(),
            AnyOf::Both(b) => Some(&b.right),
        }
    }

    fn is_left(&self) -> (r: bool) {
        matches!(self, AnyOf::Either(EitherOf::Left(_)))
    }

    fn is_right(&self) -> (r: bool) {
        matches!(self, AnyOf::Either(EitherOf::Right(_)))
    }
}

impl<L, R> Swap<L, R> for AnyOf<L, R> {
    type Output = AnyOf<R, L>;

    open spec fn spec_swap(self) -> AnyOf<R, L> {
        match self {
            AnyOf::Neither => AnyOf::Neither,
            AnyOf::Either(e) => AnyOf::Either(e.spec_swap()),
            AnyOf::Both(b) => AnyOf::Both(b.spec_swap()),
        }
    }

    fn swap(self) -> (r: AnyOf<R, L>) {
        match self {
            AnyOf::Neither => AnyOf::Neither,
            AnyOf::Either(e) => AnyOf::Either(e.swap()),
            AnyOf::Both(b) => AnyOf::Both(b.swap()),
        }
    }
}

impl<L, R> core::ops::Not for AnyOf<L, R> {
    type Output = AnyOf<R, L>;

    /// Exchanges the two sides, as [`Swap::swap`] does.
    fn not(self) -> (r: AnyOf<R, L>) {
        match self {
            AnyOf::Neither => AnyOf::Neither,
            AnyOf::Either(e) => AnyOf::Either(e.swap()),
            AnyOf::Both(b) => AnyOf::Both(b.swap()),
        }
    }
}

impl<L, R> vstd::std_specs::ops::NotSpecImpl for AnyOf<L, R> {
    open spec fn obeys_not_spec() -> bool {
        true
    }

    open spec fn not_req(self) -> bool {
        true
    }

    open spec fn not_spec(self) -> AnyOf<R, L> {
        self.spec_swap()
    }
}

impl<L, R, L2, R2> MapOf<L, R, L2, R2> for AnyOf<L, R> {
    type Output = AnyOf<L2, R2>;

    fn map<FL: FnOnce(L) -> L2, FR: FnOnce(R) -> R2>(self, fl: FL, fr: FR) -> (r: AnyOf<
        L2,
        R2,
    >) {
        match self {
            AnyOf::Neither => AnyOf::Neither,
            AnyOf::Either(EitherOf::Left(l)) => AnyOf::Either(EitherOf::Left(fl(l))),
            AnyOf::Either(EitherOf::Right(v)) => AnyOf::Either(EitherOf::Right(fr(v))),
            AnyOf::Both(b) => AnyOf::Both(BothOf { left: fl(b.left), right: fr(b.right) }),
        }
    }
}

impl<L, R> Unwrap<L, R> for AnyOf<L, R> {
    fn left_or_else<F: FnOnce() -> L>(self, f: F) -> (r: L) {
        match self {
            AnyOf::Neither => f(),
            AnyOf::Either(EitherOf::Left(l)) => l,
            AnyOf::Either(EitherOf::Right(_)) => f(),
            AnyOf::Both(b) => b.left,
        }
    }

    fn right_or_else<F: FnOnce() -> R>(self, f: F) -> (r: R) {
        match self {
            AnyOf::Neither => f(),
            AnyOf::Either(EitherOf::Left(_)) => f(),
            AnyOf::Either(EitherOf::Right(v)) => v,
            AnyOf::Both(b) => b.right,
        }
    }

    fn expect_left(self, _msg: &str) -> (r: L) {
        match self {
            AnyOf::Either(EitherOf::Left(l)) => l,
            AnyOf::Both(b) => b.left,
            _ => vstd::pervasive::unreached(),
        }
    }

    fn expect_right(self, _msg: &str) -> (r: R) {
        match self {
            AnyOf::Either(EitherOf::Right(v)) => v,
            AnyOf::Both(b) => b.right,
            _ => vstd::pervasive::unreached(),
        }
    }
}

/// Construction round-trip law: the canonical value built from two optional
/// payloads holds exactly those payloads, so building with
/// [`AnyOf::new`] and reading back with [`LeftOrRight::left`] and
/// [`LeftOrRight::right`] returns the inputs unchanged.
pub proof fn lemma_new_round_trip<L, R>(left: Option<L>, right: Option<R>)
    ensures
        AnyOf::spec_new(left, right).spec_left() == left,
        AnyOf::spec_new(left, right).spec_right() == right,
{
}

/// The pair of payload views determines a value completely: the canonical
/// representation has exactly one encoding per presence combination.
pub proof fn lemma_view_determines_any_of<L, R>(a: AnyOf<L, R>, b: AnyOf<L, R>)
    requires
        a.spec_left() == b.spec_left(),
        a.spec_right() == b.spec_right(),
    ensures
        a == b,
{
}

/// Swap involution law: exchanging the two sides twice restores the
/// original value.
pub proof fn lemma_any_of_swap_involutive<L, R>(x: AnyOf<L, R>)
    ensures
        x.spec_swap().spec_swap() == x,
{
}

/// Map identity law: any result that the contract of [`MapOf::map`] admits
/// for two functions that behave as the identity is the input itself.
pub proof fn lemma_any_of_map_identity<L, R, FL: FnOnce(L) -> L, FR: FnOnce(R) -> R>(
    x: AnyOf<L, R>,
    fl: FL,
    fr: FR,
    y: AnyOf<L, R>,
)
    requires
        forall|a: L, b: L| call_ensures(fl, (a,), b) ==> b == a,
        forall|a: R, b: R| call_ensures(fr, (a,), b) ==> b == a,
        match x.spec_left() {
            Some(l) => y.spec_left() matches Some(l2) && call_ensures(fl, (l,), l2),
            None => y.spec_left() is None,
        },
        match x.spec_right() {
            Some(v) => y.spec_right() matches Some(v2) && call_ensures(fr, (v,), v2),
            None => y.spec_right() is None,
        },
        y.spec_is_left() == x.spec_is_left(),
        y.spec_is_right() == x.spec_is_right(),
    ensures
        y == x,
{
    lemma_view_determines_any_of(y, x);
}

/// Combine identity law: `Neither` is the identity of
/// [`AnyOf::combine`] on either side.
pub proof fn lemma_combine_neither_identity<L, R>(x: AnyOf<L, R>)
    ensures
        x.spec_combine(AnyOf::Neither) == x,
        AnyOf::<L, R>::Neither.spec_combine(x) == x,
{
}

/// Filter identity and annihilation law: a `Neither` mask keeps any value
/// unchanged, and a `Both` mask empties any value, whatever payloads the
/// mask holds.
pub proof fn lemma_filter_mask_extremes<L, R>(x: AnyOf<L, R>, mask: AnyOf<L, R>)
    ensures
        x.spec_filter(AnyOf::Neither) == x,
        mask is Both ==> x.spec_filter(mask) == AnyOf::<L, R>::Neither,
{
}

/// Filter shape law: only the shape of the mask is inspected, never its
/// payloads, so two masks of the same shape filter every value alike.
pub proof fn lemma_filter_ignores_mask_payloads<L, R>(
    x: AnyOf<L, R>,
    m1: AnyOf<L, R>,
    m2: AnyOf<L, R>,
)
    requires
        m1 is Neither <==> m2 is Neither,
        m1.spec_is_left() <==> m2.spec_is_left(),
        m1.spec_is_right() <==> m2.spec_is_right(),
        m1 is Both <==> m2 is Both,
    ensures
        x.spec_filter(m1) == x.spec_filter(m2),
{
}

/// Presence decomposition law: a payload is held on a side exactly when the
/// value is in that side's exclusive state or holds both payloads. This is
/// the difference between [`AnyOf::has_left`], which asks whether a usable
/// left payload exists, and [`LeftOrRight::is_left`], which asks for the
/// exclusive-left state.
pub proof fn lemma_has_side_decomposition<L, R>(x: AnyOf<L, R>)
    ensures
        (x.spec_left() is Some) == (x.spec_is_left() || x is Both),
        (x.spec_right() is Some) == (x.spec_is_right() || x is Both),
{
}

/// Combine absorption law: `Both` as the left operand of
/// [`AnyOf::combine`] wins outright.
pub proof fn lemma_combine_both_wins<L, R>(x: AnyOf<L, R>, y: AnyOf<L, R>)
    requires
        x is Both,
    ensures
        x.spec_combine(y) == x,
{
}

} // verus!
