//! The disjoint-choice type `EitherOf`: exactly one of two values.

use vstd::prelude::*;

use crate::concepts::{LeftOrRight, MapOf, Opt2, Swap, Unwrap};

verus! {

/// A value that is exactly one of two cases: `Left(L)` or `Right(R)`.
///
/// Unlike `Result`, the two cases carry no meaning beyond their position.
#[derive(Copy, Clone, Eq, PartialEq, Debug, Hash)]
pub enum EitherOf<L, R = L> {
    Left(L),
    Right(R),
}

impl<L, R> EitherOf<L, R> {
    /// Creates a value in the `Left` case.
    pub fn new_left(left: L) -> (r: Self)
        ensures
            r == EitherOf::<L, R>::Left(left),
    {
        EitherOf::Left(left)
    }

    /// Creates a value in the `Right` case.
    pub fn new_right(right: R) -> (r: Self)
        ensures
            r == EitherOf::<L, R>::Right(right),
    {
        EitherOf::Right(right)
    }

    /// Chooses the case matching the single present value of a pair of
    /// options.
    ///
    /// Returns `None` when the pair holds no value or both values: a
    /// disjoint choice can represent neither configuration.
    pub fn from_opt2(opt: Opt2<L, R>) -> (r: Option<Self>)
        ensures
            match opt {
                (Some(l), None) => r == Some(EitherOf::<L, R>::Left(l)),
                (None, Some(v)) => r == Some(EitherOf::<L, R>::Right(v)),
                _ => r is None,
            },
    {
        match opt {
            (Some(l), None) => Some(EitherOf::Left(l)),
            (None, Some(r)) => Some(EitherOf::Right(r)),
            _ => None,
        }
    }

    /// Converts the value into a pair of options, cloning the payload of the
    /// active case.
    pub fn to_opt2(&self) -> (r: Opt2<L, R>) where L: Clone, R: Clone
        ensures
            match self {
                EitherOf::Left(l) => r.0 matches Some(lc) && cloned(*l, lc) && r.1 is None,
                EitherOf::Right(v) => r.0 is None && (r.1 matches Some(vc) && cloned(*v, vc)),
            },
    {
        match self {
            EitherOf::Left(l) => (Some(l.clone()), None),
            EitherOf::Right(r) => (None, Some(r.clone())),
        }
    }

    /// Transforms the left payload, leaving a right payload unchanged.
    pub fn map_left<FL: FnOnce(L) -> L2, L2>(self, f: FL) -> (r: EitherOf<L2, R>)
        requires
            self matches EitherOf::Left(l) ==> call_requires(f, (l,)),
        ensures
            match self {
                EitherOf::Left(l) => r matches EitherOf::Left(l2) && call_ensures(f, (l,), l2),
                EitherOf::Right(v) => r == EitherOf::<L2, R>::Right(v),
            },
    {
        match self {
            EitherOf::Left(l) => EitherOf::Left(f(l)),
            EitherOf::Right(r) => EitherOf::Right(r),
        }
    }

    /// Transforms the right payload, leaving a left payload unchanged.
    pub fn map_right<FR: FnOnce(R) -> R2, R2>(self, f: FR) -> (r: EitherOf<L, R2>)
        requires
            self matches EitherOf::Right(v) ==> call_requires(f, (v,)),
        ensures
            match self {
                EitherOf::Left(l) => r == EitherOf::<L, R2>::Left(l),
                EitherOf::Right(v) => r matches EitherOf::Right(v2) && call_ensures(f, (v,), v2),
            },
    {
        match self {
            EitherOf::Left(l) => EitherOf::Left(l),
            EitherOf::Right(r) => EitherOf::Right(f(r)),
        }
    }
}

impl<L, R> LeftOrRight<L, R> for EitherOf<L, R> {
    open spec fn spec_left(&self) -> Option<L> {
        match self {
            EitherOf::Left(l) => Some(*l),
            EitherOf::Right(_) => None,
        }
    }

    open spec fn spec_right(&self) -> Option<R> {
        match self {
            EitherOf::Left(_) => None,
            EitherOf::Right(r) => Some(*r),
        }
    }

    open spec fn spec_is_left(&self) -> bool {
        self is Left
    }

    open spec fn spec_is_right(&self) -> bool {
        self is Right
    }

    fn left(&self) -> (r: Option<&L>) {
        match self {
            EitherOf::Left(l) => Some(l),
            EitherOf::Right(_) => None,
        }
    }

    fn right(&self) -> (r: Option<&R>) {
        match self {
            EitherOf::Left(_) => None,
            EitherOf::Right(r) => Some(r),
        }
    }

    fn is_left(&self) -> (r: bool) {
        matches!(self, EitherOf::Left(_))
    }

    fn is_right(&self) -> (r: bool) {
        matches!(self, EitherOf::Right(_))
    }
}

impl<L, R> Swap<L, R> for EitherOf<L, R> {
    type Output = EitherOf<R, L>;

    open spec fn spec_swap(self) -> EitherOf<R, L> {
        match self {
            EitherOf::Left(l) => EitherOf::Right(l),
            EitherOf::Right(r) => EitherOf::Left(r),
        }
    }

    fn swap(self) -> (r: EitherOf<R, L>) {
        match self {
            EitherOf::Left(l) => EitherOf::Right(l),
            EitherOf::Right(r) => EitherOf::Left(r),
        }
    }
}

impl<L, R> core::ops::Not for EitherOf<L, R> {
    type Output = EitherOf<R, L>;

    /// Exchanges the two cases, as [`Swap::swap`] does.
    fn not(self) -> (r: EitherOf<R, L>) {
        match self {
            EitherOf::Left(l) => EitherOf::Right(l),
            EitherOf::Right(r) => EitherOf::Left(r),
        }
    }
}

impl<L, R> vstd::std_specs::ops::NotSpecImpl for EitherOf<L, R> {
    open spec fn obeys_not_spec() -> bool {
        true
    }

    open spec fn not_req(self) -> bool {
        true
    }

    open spec fn not_spec(self) -> EitherOf<R, L> {
        self.spec_swap()
    }
}

impl<L, R, L2, R2> MapOf<L, R, L2, R2> for EitherOf<L, R> {
    type Output = EitherOf<L2, R2>;

    fn map<FL: FnOnce(L) -> L2, FR: FnOnce(R) -> R2>(self, fl: FL, fr: FR) -> (r: EitherOf<
        L2,
        R2,
    >) {
        match self {
            EitherOf::Left(l) => EitherOf::Left(fl(l)),
            EitherOf::Right(v) => EitherOf::Right(fr(v)),
        }
    }
}

impl<L, R> Unwrap<L, R> for EitherOf<L, R> {
    fn left_or_else<F: FnOnce() -> L>(self, f: F) -> (r: L) {
        match self {
            EitherOf::Left(l) => l,
            EitherOf::Right(_) => f(),
        }
    }

    fn right_or_else<F: FnOnce() -> R>(self, f: F) -> (r: R) {
        match self {
            EitherOf::Left(_) => f(),
            EitherOf::Right(v) => v,
        }
    }

    fn expect_left(self, _msg: &str) -> (r: L) {
        match self {
            EitherOf::Left(l) => l,
            EitherOf::Right(_) => vstd::pervasive::unreached(),
        }
    }

    fn expect_right(self, _msg: &str) -> (r: R) {
        match self {
            EitherOf::Left(_) => vstd::pervasive::unreached(),
            EitherOf::Right(v) => v,
        }
    }
}

/// The pair of payload views determines a disjoint choice completely.
pub proof fn lemma_view_determines_either_of<L, R>(a: EitherOf<L, R>, b: EitherOf<L, R>)
    requires
        a.spec_left() == b.spec_left(),
        a.spec_right() == b.spec_right(),
    ensures
        a == b,
{
}

/// Swap involution law: exchanging the two cases twice restores the
/// original value.
pub proof fn lemma_either_of_swap_involutive<L, R>(x: EitherOf<L, R>)
    ensures
        x.spec_swap().spec_swap() == x,
{
}

/// Map identity law: any result that the contract of [`MapOf::map`] admits
/// for two functions that behave as the identity is the input itself.
pub proof fn lemma_either_of_map_identity<L, R, FL: FnOnce(L) -> L, FR: FnOnce(R) -> R>(
    x: EitherOf<L, R>,
    fl: FL,
    fr: FR,
    y: EitherOf<L, R>,
)
    requires
        forall|a: L, b: L| call_ensures(fl, (a,), b) ==> b == a,
        forall|a: R, b: R| call_ensures(fr, (a,), b) ==> b == a,
        match x.spec_left() {
            Some(l) => y.spec_left() matches Some(l2) && call_ensures(fl, (l,), l2),
            None => y.spec_left() is None,
        },
        match x.spec_right() {
            Some(v) => y.spec_right() matches Some(v2) && call_ensures(fr, (v,), v2),
            None => y.spec_right() is None,
        },
    ensures
        y == x,
{
    lemma_view_determines_either_of(y, x);
}

} // verus!
