//! Shared vocabulary for the two-sided combinator types.
//!
//! A "two-sided" value owns up to two payload slots, called left and right.
//! The traits here describe what every such type offers: inspection of the
//! two slots (`LeftOrRight`), exchanging them (`Swap`), transforming them
//! (`MapOf`), and extracting them with fallbacks (`Unwrap`).

use vstd::prelude::*;

verus! {

/// The `(T, U)` tuple.
pub type Couple<T, U> = (T, U);

/// A shortcut for `Couple<T, T>`.
pub type Pair<T> = Couple<T, T>;

/// A pair of optional values: the loose representation of a two-sided value.
pub type Opt2<T, U> = Couple<Option<T>, Option<U>>;

/// Four optional values: the loose representation of a four-way combinator.
pub type Opt4<A, B = A, C = B, D = C> = (Option<A>, Option<B>, Option<C>, Option<D>);

/// Eight optional values: the loose representation of an eight-way
/// combinator.
pub type Opt8<A, B = A, C = B, D = C, E = A, F = B, G = C, H = D> = (
    Option<A>,
    Option<B>,
    Option<C>,
    Option<D>,
    Option<E>,
    Option<F>,
    Option<G>,
    Option<H>,
);

/// Sixteen optional values: the loose representation of a sixteen-way
/// combinator.
pub type Opt16<
    A,
    B = A,
    C = B,
    D = C,
    E = A,
    F = B,
    G = C,
    H = D,
    I = A,
    J = B,
    K = C,
    M = D,
    N = E,
    P = F,
    Q = G,
    S = H,
> = (
    Option<A>,
    Option<B>,
    Option<C>,
    Option<D>,
    Option<E>,
    Option<F>,
    Option<G>,
    Option<H>,
    Option<I>,
    Option<J>,
    Option<K>,
    Option<M>,
    Option<N>,
    Option<P>,
    Option<Q>,
    Option<S>,
);

/// Access to the two sides of a two-sided value.
///
/// The two spec functions `spec_left` and `spec_right` are the mathematical
/// model of a value: which payloads it holds. Each implementing type defines
/// them by structural recursion on its cases, and every executable method of
/// this library is specified against them.
pub trait LeftOrRight<L, R>: Sized {
    /// The left payload, if one is held.
    spec fn spec_left(&self) -> Option<L>;

    /// The right payload, if one is held.
    spec fn spec_right(&self) -> Option<R>;

    /// Whether the value is in its distinguished "left" state.
    ///
    /// For a disjoint choice this means the left case is active; for the
    /// any-of-two type it means the exclusive-left state, which is stricter
    /// than merely holding a left payload.
    spec fn spec_is_left(&self) -> bool;

    /// Whether the value is in its distinguished "right" state.
    spec fn spec_is_right(&self) -> bool;

    /// Returns a reference to the left value if it exists.
    fn left(&self) -> (r: Option<&L>)
        ensures
            match r {
                Some(l) => self.spec_left() == Some(*l),
                None => self.spec_left() is None,
            },
    ;

    /// Returns a reference to the right value if it exists.
    fn right(&self) -> (r: Option<&R>)
        ensures
            match r {
                Some(v) => self.spec_right() == Some(*v),
                None => self.spec_right() is None,
            },
    ;

    /// Checks whether the value is in its "left" state.
    fn is_left(&self) -> (r: bool)
        ensures
            r == self.spec_is_left(),
    ;

    /// Checks whether the value is in its "right" state.
    fn is_right(&self) -> (r: bool)
        ensures
            r == self.spec_is_right(),
    ;

    /// Returns references to the two sides as a pair of options.
    fn opt2(&self) -> (r: Couple<Option<&L>, Option<&R>>)
        ensures
            match r.0 {
                Some(l) => self.spec_left() == Some(*l),
                None => self.spec_left() is None,
            },
            match r.1 {
                Some(v) => self.spec_right() == Some(*v),
                None => self.spec_right() is None,
            },
    {
        (self.left(), self.right())
    }

    /// Returns references to the two sides as a pair of options.
    fn any(&self) -> (r: Couple<Option<&L>, Option<&R>>)
        ensures
            match r.0 {
                Some(l) => self.spec_left() == Some(*l),
                None => self.spec_left() is None,
            },
            match r.1 {
                Some(v) => self.spec_right() == Some(*v),
                None => self.spec_right() is None,
            },
    {
        (self.left(), self.right())
    }
}

/// Exchanging the two sides of a two-sided value.
pub trait Swap<L, R>: LeftOrRight<L, R> {
    /// The type with the two sides exchanged.
    type Output: LeftOrRight<R, L>;

    /// The value with the two sides exchanged.
    spec fn spec_swap(self) -> Self::Output;

    /// Exchanges the two sides: any left payload becomes the right payload
    /// of the result and vice versa.
    fn swap(self) -> (r: Self::Output)
        ensures
            r == self.spec_swap(),
            r.spec_left() == self.spec_right(),
            r.spec_right() == self.spec_left(),
    ;
}

/// Transforming the two sides of a two-sided value.
///
/// The functions apply one to each side; a function whose side is absent is
/// never invoked. The contract of [`MapOf::map`] relates each present payload
/// of the result to the matching input payload through the given function's
/// postcondition.
pub trait MapOf<L, R, L2, R2>: LeftOrRight<L, R> {
    /// The type with the two payload types transformed.
    type Output: LeftOrRight<L2, R2>;

    /// Transforms the left payload with `fl` and the right payload with
    /// `fr`, keeping the shape of the value.
    fn map<FL: FnOnce(L) -> L2, FR: FnOnce(R) -> R2>(self, fl: FL, fr: FR) -> (r: Self::Output)
        requires
            self.spec_left() matches Some(l) ==> call_requires(fl, (l,)),
            self.spec_right() matches Some(v) ==> call_requires(fr, (v,)),
        ensures
            match self.spec_left() {
                Some(l) => r.spec_left() matches Some(l2) && call_ensures(fl, (l,), l2),
                None => r.spec_left() is None,
            },
            match self.spec_right() {
                Some(v) => r.spec_right() matches Some(v2) && call_ensures(fr, (v,), v2),
                None => r.spec_right() is None,
            },
            r.spec_is_left() == self.spec_is_left(),
            r.spec_is_right() == self.spec_is_right(),
    ;
}

/// Extracting one side of a two-sided value, with fallbacks.
pub trait Unwrap<L, R>: LeftOrRight<L, R> {
    /// Returns the left payload, or the result of the given function when no
    /// left payload is held.
    fn left_or_else<F: FnOnce() -> L>(self, f: F) -> (r: L)
        requires
            self.spec_left() is None ==> call_requires(f, ()),
        ensures
            match self.spec_left() {
                Some(l) => r == l,
                None => call_ensures(f, (), r),
            },
    ;

    /// Returns the right payload, or the result of the given function when
    /// no right payload is held.
    fn right_or_else<F: FnOnce() -> R>(self, f: F) -> (r: R)
        requires
            self.spec_right() is None ==> call_requires(f, ()),
        ensures
            match self.spec_right() {
                Some(v) => r == v,
                None => call_ensures(f, (), r),
            },
    ;

    /// Returns the left payload, or the given default when no left payload
    /// is held.
    fn left_or(self, l: L) -> (r: L)
        ensures
            match self.spec_left() {
                Some(x) => r == x,
                None => r == l,
            },
    {
        let fallback = move || -> (d: L)
            ensures
                d == l,
            { l };
        self.left_or_else(fallback)
    }

    /// Returns the right payload, or the given default when no right payload
    /// is held.
    fn right_or(self, v: R) -> (r: R)
        ensures
            match self.spec_right() {
                Some(x) => r == x,
                None => r == v,
            },
    {
        let fallback = move || -> (d: R)
            ensures
                d == v,
            { v };
        self.right_or_else(fallback)
    }

    /// Returns the left payload, or the default value of its type when no
    /// left payload is held.
    fn left_or_default(self) -> (r: L) where L: Default
        ensures
            match self.spec_left() {
                Some(x) => r == x,
                None => call_ensures(L::default, (), r),
            },
    {
        let fallback = || -> (d: L)
            ensures
                call_ensures(L::default, (), d),
            { L::default() };
        self.left_or_else(fallback)
    }

    /// Returns the right payload, or the default value of its type when no
    /// right payload is held.
    fn right_or_default(self) -> (r: R) where R: Default
        ensures
            match self.spec_right() {
                Some(x) => r == x,
                None => call_ensures(R::default, (), r),
            },
    {
        let fallback = || -> (d: R)
            ensures
                call_ensures(R::default, (), d),
            { R::default() };
        self.right_or_else(fallback)
    }

    /// Extracts the left payload. Callers must establish that one is held;
    /// the message names the expectation for unverified callers.
    fn expect_left(self, msg: &str) -> (r: L)
        requires
            self.spec_left() is Some,
        ensures
            Some(r) == self.spec_left(),
    ;

    /// Extracts the right payload. Callers must establish that one is held;
    /// the message names the expectation for unverified callers.
    fn expect_right(self, msg: &str) -> (r: R)
        requires
            self.spec_right() is Some,
        ensures
            Some(r) == self.spec_right(),
    ;

    /// Extracts the left payload. Callers must establish that one is held.
    fn unwrap_left(self) -> (r: L)
        requires
            self.spec_left() is Some,
        ensures
            Some(r) == self.spec_left(),
    {
        self.expect_left("called `unwrap_left` on `LeftOrRight` value that is `Right`")
    }

    /// Extracts the right payload. Callers must establish that one is held.
    fn unwrap_right(self) -> (r: R)
        requires
            self.spec_right() is Some,
        ensures
            Some(r) == self.spec_right(),
    {
        self.expect_right("called `unwrap_right` on `LeftOrRight` value that is `Left`")
    }
}

} // verus!
