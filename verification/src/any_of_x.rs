//! Higher-arity combinators built by nesting [`AnyOf`].
//!
//! An `AnyOfN` is an [`AnyOf`] whose two sides are `AnyOf(N/2)` values, so
//! each of the `N` leaves sits at the end of a unique left/right path, and
//! the accessors are named after those paths (`ll`, `lr`, ... at arity four).
//!
//! The constructors are canonical: a half is built at all only when at least
//! one leaf below it is present, so the all-empty input collapses to
//! `Neither` at every level rather than to a tree of empty halves.

use vstd::prelude::*;

use crate::concepts::{LeftOrRight, Opt16, Opt4, Opt8};
use crate::AnyOf;

verus! {

/// A combination of four possible values.
pub type AnyOf4<LL, LR = LL, RL = LR, RR = RL> = AnyOf<AnyOf<LL, LR>, AnyOf<RL, RR>>;

impl<LL, LR, RL, RR> AnyOf4<LL, LR, RL, RR> {
    /// The canonical four-way value holding the given optional leaves: each
    /// half is present exactly when one of its leaves is.
    pub open spec fn spec_from_opt4(opt: Opt4<LL, LR, RL, RR>) -> Self {
        AnyOf::spec_new(
            if opt.0 is None && opt.1 is None {
                None
            } else {
                Some(AnyOf::spec_new(opt.0, opt.1))
            },
            if opt.2 is None && opt.3 is None {
                None
            } else {
                Some(AnyOf::spec_new(opt.2, opt.3))
            },
        )
    }

    /// The leaf at path left-left.
    pub open spec fn spec_ll(&self) -> Option<LL> {
        match self.spec_left() {
            Some(h) => h.spec_left(),
            None => None,
        }
    }

    /// The leaf at path left-right.
    pub open spec fn spec_lr(&self) -> Option<LR> {
        match self.spec_left() {
            Some(h) => h.spec_right(),
            None => None,
        }
    }

    /// The leaf at path right-left.
    pub open spec fn spec_rl(&self) -> Option<RL> {
        match self.spec_right() {
            Some(h) => h.spec_left(),
            None => None,
        }
    }

    /// The leaf at path right-right.
    pub open spec fn spec_rr(&self) -> Option<RR> {
        match self.spec_right() {
            Some(h) => h.spec_right(),
            None => None,
        }
    }

    /// Creates the canonical four-way value from four optional leaves.
    pub fn new4(ll: Option<LL>, lr: Option<LR>, rl: Option<RL>, rr: Option<RR>) -> (r: Self)
        ensures
            r == Self::spec_from_opt4((ll, lr, rl, rr)),
    {
        Self::from_opt4((ll, lr, rl, rr))
    }

    /// Creates the canonical four-way value from a tuple of four optional
    /// leaves.
    ///
    /// A half-tree is absent exactly when both of its leaves are absent, so
    /// the all-empty tuple collapses to `Neither` at the top level.
    pub fn from_opt4(opt: Opt4<LL, LR, RL, RR>) -> (r: Self)
        ensures
            r == Self::spec_from_opt4(opt),
    {
        let (ll, lr, rl, rr) = opt;
        let left = if ll.is_none() && lr.is_none() {
            None
        } else {
            Some(AnyOf::new(ll, lr))
        };
        let right = if rl.is_none() && rr.is_none() {
            None
        } else {
            Some(AnyOf::new(rl, rr))
        };
        AnyOf::new(left, right)
    }

    /// Returns the left-left leaf if it exists.
    pub fn ll(&self) -> (r: Option<&LL>)
        ensures
            match r {
                Some(v) => self.spec_ll() == Some(*v),
                None => self.spec_ll() is None,
            },
    {
        match self.left() {
            Some(h) => h.left(),
            None => None,
        }
    }

    /// Returns the left-right leaf if it exists.
    pub fn lr(&self) -> (r: Option<&LR>)
        ensures
            match r {
                Some(v) => self.spec_lr() == Some(*v),
                None => self.spec_lr() is None,
            },
    {
        match self.left() {
            Some(h) => h.right(),
            None => None,
        }
    }

    /// Returns the right-left leaf if it exists.
    pub fn rl(&self) -> (r: Option<&RL>)
        ensures
            match r {
                Some(v) => self.spec_rl() == Some(*v),
                None => self.spec_rl() is None,
            },
    {
        match self.right() {
            Some(h) => h.left(),
            None => None,
        }
    }

    /// Returns the right-right leaf if it exists.
    pub fn rr(&self) -> (r: Option<&RR>)
        ensures
            match r {
                Some(v) => self.spec_rr() == Some(*v),
                None => self.spec_rr() is None,
            },
    {
        match self.right() {
            Some(h) => h.right(),
            None => None,
        }
    }

    /// Returns the four optional leaves in path order.
    pub fn opt4(&self) -> (r: Opt4<&LL, &LR, &RL, &RR>)
        ensures
            match r.0 {
                Some(v) => self.spec_ll() == Some(*v),
                None => self.spec_ll() is None,
            },
            match r.1 {
                Some(v) => self.spec_lr() == Some(*v),
                None => self.spec_lr() is None,
            },
            match r.2 {
                Some(v) => self.spec_rl() == Some(*v),
                None => self.spec_rl() is None,
            },
            match r.3 {
                Some(v) => self.spec_rr() == Some(*v),
                None => self.spec_rr() is None,
            },
    {
        (self.ll(), self.lr(), self.rl(), self.rr())
    }
}

/// Canonical collapse law at arity four: the all-empty input builds
/// `Neither` itself, not a pair of empty halves.
pub proof fn lemma_from_opt4_empty_collapses<LL, LR, RL, RR>()
    ensures
        AnyOf4::<LL, LR, RL, RR>::spec_from_opt4((None, None, None, None)) == AnyOf::<
            AnyOf<LL, LR>,
            AnyOf<RL, RR>,
        >::Neither,
{
}

/// Leaf round-trip law at arity four: the four-way value built from four
/// optional leaves returns exactly those leaves from its accessors.
pub proof fn lemma_from_opt4_leaves<LL, LR, RL, RR>(opt: Opt4<LL, LR, RL, RR>)
    ensures
        AnyOf4::spec_from_opt4(opt).spec_ll() == opt.0,
        AnyOf4::spec_from_opt4(opt).spec_lr() == opt.1,
        AnyOf4::spec_from_opt4(opt).spec_rl() == opt.2,
        AnyOf4::spec_from_opt4(opt).spec_rr() == opt.3,
{
}

/// A combination of eight possible values.
pub type AnyOf8<LLL, LLR = LLL, LRL = LLR, LRR = LRL, RLL = LLL, RLR = LLR, RRL = LRL, RRR = LRR> =
    AnyOf<AnyOf4<LLL, LLR, LRL, LRR>, AnyOf4<RLL, RLR, RRL, RRR>>;

impl<LLL, LLR, LRL, LRR, RLL, RLR, RRL, RRR> AnyOf8<LLL, LLR, LRL, LRR, RLL, RLR, RRL, RRR> {
    /// The canonical eight-way value holding the given optional leaves: each
    /// half is present exactly when one of its four leaves is.
    pub open spec fn spec_from_opt8(opt: Opt8<LLL, LLR, LRL, LRR, RLL, RLR, RRL, RRR>) -> Self {
        AnyOf::spec_new(
            if opt.0 is None && opt.1 is None && opt.2 is None && opt.3 is None {
                None
            } else {
                Some(AnyOf4::spec_from_opt4((opt.0, opt.1, opt.2, opt.3)))
            },
            if opt.4 is None && opt.5 is None && opt.6 is None && opt.7 is None {
                None
            } else {
                Some(AnyOf4::spec_from_opt4((opt.4, opt.5, opt.6, opt.7)))
            },
        )
    }

    /// The leaf at path left-left-left.
    pub open spec fn spec_lll(&self) -> Option<LLL> {
        match self.spec_left() {
            Some(h) => h.spec_ll(),
            None => None,
        }
    }

    /// The leaf at path left-left-right.
    pub open spec fn spec_llr(&self) -> Option<LLR> {
        match self.spec_left() {
            Some(h) => h.spec_lr(),
            None => None,
        }
    }

    /// The leaf at path left-right-left.
    pub open spec fn spec_lrl(&self) -> Option<LRL> {
        match self.spec_left() {
            Some(h) => h.spec_rl(),
            None => None,
        }
    }

    /// The leaf at path left-right-right.
    pub open spec fn spec_lrr(&self) -> Option<LRR> {
        match self.spec_left() {
            Some(h) => h.spec_rr(),
            None => None,
        }
    }

    /// The leaf at path right-left-left.
    pub open spec fn spec_rll(&self) -> Option<RLL> {
        match self.spec_right() {
            Some(h) => h.spec_ll(),
            None => None,
        }
    }

    /// The leaf at path right-left-right.
    pub open spec fn spec_rlr(&self) -> Option<RLR> {
        match self.spec_right() {
            Some(h) => h.spec_lr(),
            None => None,
        }
    }

    /// The leaf at path right-right-left.
    pub open spec fn spec_rrl(&self) -> Option<RRL> {
        match self.spec_right() {
            Some(h) => h.spec_rl(),
            None => None,
        }
    }

    /// The leaf at path right-right-right.
    pub open spec fn spec_rrr(&self) -> Option<RRR> {
        match self.spec_right() {
            Some(h) => h.spec_rr(),
            None => None,
        }
    }

    /// Creates the canonical eight-way value from eight optional leaves.
    pub fn new8(
        lll: Option<LLL>,
        llr: Option<LLR>,
        lrl: Option<LRL>,
        lrr: Option<LRR>,
        rll: Option<RLL>,
        rlr: Option<RLR>,
        rrl: Option<RRL>,
        rrr: Option<RRR>,
    ) -> (r: Self)
        ensures
            r == Self::spec_from_opt8((lll, llr, lrl, lrr, rll, rlr, rrl, rrr)),
    {
        Self::from_opt8((lll, llr, lrl, lrr, rll, rlr, rrl, rrr))
    }

    /// Creates the canonical eight-way value from a tuple of eight optional
    /// leaves.
    ///
    /// A half-tree is absent exactly when all four of its leaves are absent,
    /// so the all-empty tuple collapses to `Neither` at every level.
    pub fn from_opt8(opt: Opt8<LLL, LLR, LRL, LRR, RLL, RLR, RRL, RRR>) -> (r: Self)
        ensures
            r == Self::spec_from_opt8(opt),
    {
        let (lll, llr, lrl, lrr, rll, rlr, rrl, rrr) = opt;
        let left = if lll.is_none() && llr.is_none() && lrl.is_none() && lrr.is_none() {
            None
        } else {
            Some(AnyOf4::from_opt4((lll, llr, lrl, lrr)))
        };
        let right = if rll.is_none() && rlr.is_none() && rrl.is_none() && rrr.is_none() {
            None
        } else {
            Some(AnyOf4::from_opt4((rll, rlr, rrl, rrr)))
        };
        AnyOf::new(left, right)
    }

    /// Returns the left-left-left leaf if it exists.
    pub fn lll(&self) -> (r: Option<&LLL>)
        ensures
            match r {
                Some(v) => self.spec_lll() == Some(*v),
                None => self.spec_lll() is None,
            },
    {
        match self.left() {
            Some(h) => h.ll(),
            None => None,
        }
    }

    /// Returns the left-left-right leaf if it exists.
    pub fn llr(&self) -> (r: Option<&LLR>)
        ensures
            match r {
                Some(v) => self.spec_llr() == Some(*v),
                None => self.spec_llr() is None,
            },
    {
        match self.left() {
            Some(h) => h.lr(),
            None => None,
        }
    }

    /// Returns the left-right-left leaf if it exists.
    pub fn lrl(&self) -> (r: Option<&LRL>)
        ensures
            match r {
                Some(v) => self.spec_lrl() == Some(*v),
                None => self.spec_lrl() is None,
            },
    {
        match self.left() {
            Some(h) => h.rl(),
            None => None,
        }
    }

    /// Returns the left-right-right leaf if it exists.
    pub fn lrr(&self) -> (r: Option<&LRR>)
        ensures
            match r {
                Some(v) => self.spec_lrr() == Some(*v),
                None => self.spec_lrr() is None,
            },
    {
        match self.left() {
            Some(h) => h.rr(),
            None => None,
        }
    }

    /// Returns the right-left-left leaf if it exists.
    pub fn rll(&self) -> (r: Option<&RLL>)
        ensures
            match r {
                Some(v) => self.spec_rll() == Some(*v),
                None => self.spec_rll() is None,
            },
    {
        match self.right() {
            Some(h) => h.ll(),
            None => None,
        }
    }

    /// Returns the right-left-right leaf if it exists.
    pub fn rlr(&self) -> (r: Option<&RLR>)
        ensures
            match r {
                Some(v) => self.spec_rlr() == Some(*v),
                None => self.spec_rlr() is None,
            },
    {
        match self.right() {
            Some(h) => h.lr(),
            None => None,
        }
    }

    /// Returns the right-right-left leaf if it exists.
    pub fn rrl(&self) -> (r: Option<&RRL>)
        ensures
            match r {
                Some(v) => self.spec_rrl() == Some(*v),
                None => self.spec_rrl() is None,
            },
    {
        match self.right() {
            Some(h) => h.rl(),
            None => None,
        }
    }

    /// Returns the right-right-right leaf if it exists.
    pub fn rrr(&self) -> (r: Option<&RRR>)
        ensures
            match r {
                Some(v) => self.spec_rrr() == Some(*v),
                None => self.spec_rrr() is None,
            },
    {
        match self.right() {
            Some(h) => h.rr(),
            None => None,
        }
    }

    /// Returns the eight optional leaves in path order.
    pub fn opt8(&self) -> (r: Opt8<&LLL, &LLR, &LRL, &LRR, &RLL, &RLR, &RRL, &RRR>)
        ensures
            match r.0 {
                Some(v) => self.spec_lll() == Some(*v),
                None => self.spec_lll() is None,
            },
            match r.1 {
                Some(v) => self.spec_llr() == Some(*v),
                None => self.spec_llr() is None,
            },
            match r.2 {
                Some(v) => self.spec_lrl() == Some(*v),
                None => self.spec_lrl() is None,
            },
            match r.3 {
                Some(v) => self.spec_lrr() == Some(*v),
                None => self.spec_lrr() is None,
            },
            match r.4 {
                Some(v) => self.spec_rll() == Some(*v),
                None => self.spec_rll() is None,
            },
            match r.5 {
                Some(v) => self.spec_rlr() == Some(*v),
                None => self.spec_rlr() is None,
            },
            match r.6 {
                Some(v) => self.spec_rrl() == Some(*v),
                None => self.spec_rrl() is None,
            },
            match r.7 {
                Some(v) => self.spec_rrr() == Some(*v),
                None => self.spec_rrr() is None,
            },
    {
        (
            self.lll(),
            self.llr(),
            self.lrl(),
            self.lrr(),
            self.rll(),
            self.rlr(),
            self.rrl(),
            self.rrr(),
        )
    }
}

/// Canonical collapse law at arity eight: the all-empty input builds
/// `Neither` itself, not a tree of empty halves.
pub proof fn lemma_from_opt8_empty_collapses<LLL, LLR, LRL, LRR, RLL, RLR, RRL, RRR>()
    ensures
        AnyOf8::<LLL, LLR, LRL, LRR, RLL, RLR, RRL, RRR>::spec_from_opt8(
            (None, None, None, None, None, None, None, None),
        ) == AnyOf::<AnyOf4<LLL, LLR, LRL, LRR>, AnyOf4<RLL, RLR, RRL, RRR>>::Neither,
{
}

/// Leaf round-trip law at arity eight: the eight-way value built from eight
/// optional leaves returns exactly those leaves from its accessors.
pub proof fn lemma_from_opt8_leaves<LLL, LLR, LRL, LRR, RLL, RLR, RRL, RRR>(
    opt: Opt8<LLL, LLR, LRL, LRR, RLL, RLR, RRL, RRR>,
)
    ensures
        AnyOf8::spec_from_opt8(opt).spec_lll() == opt.0,
        AnyOf8::spec_from_opt8(opt).spec_llr() == opt.1,
        AnyOf8::spec_from_opt8(opt).spec_lrl() == opt.2,
        AnyOf8::spec_from_opt8(opt).spec_lrr() == opt.3,
        AnyOf8::spec_from_opt8(opt).spec_rll() == opt.4,
        AnyOf8::spec_from_opt8(opt).spec_rlr() == opt.5,
        AnyOf8::spec_from_opt8(opt).spec_rrl() == opt.6,
        AnyOf8::spec_from_opt8(opt).spec_rrr() == opt.7,
{
    lemma_from_opt4_leaves((opt.0, opt.1, opt.2, opt.3));
    lemma_from_opt4_leaves((opt.4, opt.5, opt.6, opt.7));
}

/// A combination of sixteen possible values.
pub type AnyOf16<
    LLLL,
    LLLR = LLLL,
    LLRL = LLLR,
    LLRR = LLRL,
    LRLL = LLLL,
    LRLR = LLLR,
    LRRL = LLRL,
    LRRR = LLRR,
    RLLL = LLLL,
    RLLR = LLLR,
    RLRL = LLRL,
    RLRR = LLRR,
    RRLL = LRLL,
    RRLR = LRLR,
    RRRL = LRRL,
    RRRR = LRRR,
> = AnyOf<
    AnyOf8<LLLL, LLLR, LLRL, LLRR, LRLL, LRLR, LRRL, LRRR>,
    AnyOf8<RLLL, RLLR, RLRL, RLRR, RRLL, RRLR, RRRL, RRRR>,
>;

impl<
    LLLL, LLLR, LLRL, LLRR, LRLL, LRLR, LRRL, LRRR,
    RLLL, RLLR, RLRL, RLRR, RRLL, RRLR, RRRL, RRRR,
> AnyOf16<
    LLLL, LLLR, LLRL, LLRR, LRLL, LRLR, LRRL, LRRR,
    RLLL, RLLR, RLRL, RLRR, RRLL, RRLR, RRRL, RRRR,
> {
    /// The canonical sixteen-way value holding the given optional leaves:
    /// each half is present exactly when one of its eight leaves is.
    pub open spec fn spec_from_opt16(
        opt: Opt16<LLLL, LLLR, LLRL, LLRR, LRLL, LRLR, LRRL, LRRR,
        RLLL, RLLR, RLRL, RLRR, RRLL, RRLR, RRRL, RRRR>,
    ) -> Self {
        AnyOf::spec_new(
            if opt.0 is None && opt.1 is None && opt.2 is None && opt.3 is None
                && opt.4 is None && opt.5 is None && opt.6 is None && opt.7 is None {
                None
            } else {
                Some(AnyOf8::spec_from_opt8((opt.0, opt.1, opt.2, opt.3, opt.4, opt.5, opt.6, opt.7)))
            },
            if opt.8 is None && opt.9 is None && opt.10 is None && opt.11 is None
                && opt.12 is None && opt.13 is None && opt.14 is None && opt.15 is None {
                None
            } else {
                Some(AnyOf8::spec_from_opt8((opt.8, opt.9, opt.10, opt.11, opt.12, opt.13, opt.14, opt.15)))
            },
        )
    }

    /// The leaf at path left-left-left-left.
    pub open spec fn spec_llll(&self) -> Option<LLLL> {
        match self.spec_left() {
            Some(h) => h.spec_lll(),
            None => None,
        }
    }

    /// The leaf at path left-left-left-right.
    pub open spec fn spec_lllr(&self) -> Option<LLLR> {
        match self.spec_left() {
            Some(h) => h.spec_llr(),
            None => None,
        }
    }

    /// The leaf at path left-left-right-left.
    pub open spec fn spec_llrl(&self) -> Option<LLRL> {
        match self.spec_left() {
            Some(h) => h.spec_lrl(),
            None => None,
        }
    }

    /// The leaf at path left-left-right-right.
    pub open spec fn spec_llrr(&self) -> Option<LLRR> {
        match self.spec_left() {
            Some(h) => h.spec_lrr(),
            None => None,
        }
    }

    /// The leaf at path left-right-left-left.
    pub open spec fn spec_lrll(&self) -> Option<LRLL> {
        match self.spec_left() {
            Some(h) => h.spec_rll(),
            None => None,
        }
    }

    /// The leaf at path left-right-left-right.
    pub open spec fn spec_lrlr(&self) -> Option<LRLR> {
        match self.spec_left() {
            Some(h) => h.spec_rlr(),
            None => None,
        }
    }

    /// The leaf at path left-right-right-left.
    pub open spec fn spec_lrrl(&self) -> Option<LRRL> {
        match self.spec_left() {
            Some(h) => h.spec_rrl(),
            None => None,
        }
    }

    /// The leaf at path left-right-right-right.
    pub open spec fn spec_lrrr(&self) -> Option<LRRR> {
        match self.spec_left() {
            Some(h) => h.spec_rrr(),
            None => None,
        }
    }

    /// The leaf at path right-left-left-left.
    pub open spec fn spec_rlll(&self) -> Option<RLLL> {
        match self.spec_right() {
            Some(h) => h.spec_lll(),
            None => None,
        }
    }

    /// The leaf at path right-left-left-right.
    pub open spec fn spec_rllr(&self) -> Option<RLLR> {
        match self.spec_right() {
            Some(h) => h.spec_llr(),
            None => None,
        }
    }

    /// The leaf at path right-left-right-left.
    pub open spec fn spec_rlrl(&self) -> Option<RLRL> {
        match self.spec_right() {
            Some(h) => h.spec_lrl(),
            None => None,
        }
    }

    /// The leaf at path right-left-right-right.
    pub open spec fn spec_rlrr(&self) -> Option<RLRR> {
        match self.spec_right() {
            Some(h) => h.spec_lrr(),
            None => None,
        }
    }

    /// The leaf at path right-right-left-left.
    pub open spec fn spec_rrll(&self) -> Option<RRLL> {
        match self.spec_right() {
            Some(h) => h.spec_rll(),
            None => None,
        }
    }

    /// The leaf at path right-right-left-right.
    pub open spec fn spec_rrlr(&self) -> Option<RRLR> {
        match self.spec_right() {
            Some(h) => h.spec_rlr(),
            None => None,
        }
    }

    /// The leaf at path right-right-right-left.
    pub open spec fn spec_rrrl(&self) -> Option<RRRL> {
        match self.spec_right() {
            Some(h) => h.spec_rrl(),
            None => None,
        }
    }

    /// The leaf at path right-right-right-right.
    pub open spec fn spec_rrrr(&self) -> Option<RRRR> {
        match self.spec_right() {
            Some(h) => h.spec_rrr(),
            None => None,
        }
    }

    /// Creates the canonical sixteen-way value from sixteen optional
    /// leaves.
    pub fn new16(
        llll: Option<LLLL>,
        lllr: Option<LLLR>,
        llrl: Option<LLRL>,
        llrr: Option<LLRR>,
        lrll: Option<LRLL>,
        lrlr: Option<LRLR>,
        lrrl: Option<LRRL>,
        lrrr: Option<LRRR>,
        rlll: Option<RLLL>,
        rllr: Option<RLLR>,
        rlrl: Option<RLRL>,
        rlrr: Option<RLRR>,
        rrll: Option<RRLL>,
        rrlr: Option<RRLR>,
        rrrl: Option<RRRL>,
        rrrr: Option<RRRR>,
    ) -> (r: Self)
        ensures
            r == Self::spec_from_opt16((
                llll, lllr, llrl, llrr, lrll, lrlr, lrrl, lrrr,
                rlll, rllr, rlrl, rlrr, rrll, rrlr, rrrl, rrrr,
            )),
    {
        Self::from_opt16((
            llll, lllr, llrl, llrr, lrll, lrlr, lrrl, lrrr,
            rlll, rllr, rlrl, rlrr, rrll, rrlr, rrrl, rrrr,
        ))
    }

    /// Creates the canonical sixteen-way value from a tuple of sixteen
    /// optional leaves.
    ///
    /// A half-tree is absent exactly when all eight of its leaves are
    /// absent, so the all-empty tuple collapses to `Neither` at every
    /// level.
    pub fn from_opt16(
        opt: Opt16<LLLL, LLLR, LLRL, LLRR, LRLL, LRLR, LRRL, LRRR,
        RLLL, RLLR, RLRL, RLRR, RRLL, RRLR, RRRL, RRRR>,
    ) -> (r: Self)
        ensures
            r == Self::spec_from_opt16(opt),
    {
        let (
            llll, lllr, llrl, llrr, lrll, lrlr, lrrl, lrrr,
            rlll, rllr, rlrl, rlrr, rrll, rrlr, rrrl, rrrr,
        ) = opt;
        let left = if llll.is_none() && lllr.is_none() && llrl.is_none() && llrr.is_none()
            && lrll.is_none() && lrlr.is_none() && lrrl.is_none() && lrrr.is_none() {
            None
        } else {
            Some(AnyOf8::from_opt8((llll, lllr, llrl, llrr, lrll, lrlr, lrrl, lrrr)))
        };
        let right = if rlll.is_none() && rllr.is_none() && rlrl.is_none() && rlrr.is_none()
            && rrll.is_none() && rrlr.is_none() && rrrl.is_none() && rrrr.is_none() {
            None
        } else {
            Some(AnyOf8::from_opt8((rlll, rllr, rlrl, rlrr, rrll, rrlr, rrrl, rrrr)))
        };
        AnyOf::new(left, right)
    }

    /// Returns the left-left-left-left leaf if it exists.
    pub fn llll(&self) -> (r: Option<&LLLL>)
        ensures
            match r {
                Some(v) => self.spec_llll() == Some(*v),
                None => self.spec_llll() is None,
            },
    {
        match self.left() {
            Some(h) => h.lll(),
            None => None,
        }
    }

    /// Returns the left-left-left-right leaf if it exists.
    pub fn lllr(&self) -> (r: Option<&LLLR>)
        ensures
            match r {
                Some(v) => self.spec_lllr() == Some(*v),
                None => self.spec_lllr() is None,
            },
    {
        match self.left() {
            Some(h) => h.llr(),
            None => None,
        }
    }

    /// Returns the left-left-right-left leaf if it exists.
    pub fn llrl(&self) -> (r: Option<&LLRL>)
        ensures
            match r {
                Some(v) => self.spec_llrl() == Some(*v),
                None => self.spec_llrl() is None,
            },
    {
        match self.left() {
            Some(h) => h.lrl(),
            None => None,
        }
    }

    /// Returns the left-left-right-right leaf if it exists.
    pub fn llrr(&self) -> (r: Option<&LLRR>)
        ensures
            match r {
                Some(v) => self.spec_llrr() == Some(*v),
                None => self.spec_llrr() is None,
            },
    {
        match self.left() {
            Some(h) => h.lrr(),
            None => None,
        }
    }

    /// Returns the left-right-left-left leaf if it exists.
    pub fn lrll(&self) -> (r: Option<&LRLL>)
        ensures
            match r {
                Some(v) => self.spec_lrll() == Some(*v),
                None => self.spec_lrll() is None,
            },
    {
        match self.left() {
            Some(h) => h.rll(),
            None => None,
        }
    }

    /// Returns the left-right-left-right leaf if it exists.
    pub fn lrlr(&self) -> (r: Option<&LRLR>)
        ensures
            match r {
                Some(v) => self.spec_lrlr() == Some(*v),
                None => self.spec_lrlr() is None,
            },
    {
        match self.left() {
            Some(h) => h.rlr(),
            None => None,
        }
    }

    /// Returns the left-right-right-left leaf if it exists.
    pub fn lrrl(&self) -> (r: Option<&LRRL>)
        ensures
            match r {
                Some(v) => self.spec_lrrl() == Some(*v),
                None => self.spec_lrrl() is None,
            },
    {
        match self.left() {
            Some(h) => h.rrl(),
            None => None,
        }
    }

    /// Returns the left-right-right-right leaf if it exists.
    pub fn lrrr(&self) -> (r: Option<&LRRR>)
        ensures
            match r {
                Some(v) => self.spec_lrrr() == Some(*v),
                None => self.spec_lrrr() is None,
            },
    {
        match self.left() {
            Some(h) => h.rrr(),
            None => None,
        }
    }

    /// Returns the right-left-left-left leaf if it exists.
    pub fn rlll(&self) -> (r: Option<&RLLL>)
        ensures
            match r {
                Some(v) => self.spec_rlll() == Some(*v),
                None => self.spec_rlll() is None,
            },
    {
        match self.right() {
            Some(h) => h.lll(),
            None => None,
        }
    }

    /// Returns the right-left-left-right leaf if it exists.
    pub fn rllr(&self) -> (r: Option<&RLLR>)
        ensures
            match r {
                Some(v) => self.spec_rllr() == Some(*v),
                None => self.spec_rllr() is None,
            },
    {
        match self.right() {
            Some(h) => h.llr(),
            None => None,
        }
    }

    /// Returns the right-left-right-left leaf if it exists.
    pub fn rlrl(&self) -> (r: Option<&RLRL>)
        ensures
            match r {
                Some(v) => self.spec_rlrl() == Some(*v),
                None => self.spec_rlrl() is None,
            },
    {
        match self.right() {
            Some(h) => h.lrl(),
            None => None,
        }
    }

    /// Returns the right-left-right-right leaf if it exists.
    pub fn rlrr(&self) -> (r: Option<&RLRR>)
        ensures
            match r {
                Some(v) => self.spec_rlrr() == Some(*v),
                None => self.spec_rlrr() is None,
            },
    {
        match self.right() {
            Some(h) => h.lrr(),
            None => None,
        }
    }

    /// Returns the right-right-left-left leaf if it exists.
    pub fn rrll(&self) -> (r: Option<&RRLL>)
        ensures
            match r {
                Some(v) => self.spec_rrll() == Some(*v),
                None => self.spec_rrll() is None,
            },
    {
        match self.right() {
            Some(h) => h.rll(),
            None => None,
        }
    }

    /// Returns the right-right-left-right leaf if it exists.
    pub fn rrlr(&self) -> (r: Option<&RRLR>)
        ensures
            match r {
                Some(v) => self.spec_rrlr() == Some(*v),
                None => self.spec_rrlr() is None,
            },
    {
        match self.right() {
            Some(h) => h.rlr(),
            None => None,
        }
    }

    /// Returns the right-right-right-left leaf if it exists.
    pub fn rrrl(&self) -> (r: Option<&RRRL>)
        ensures
            match r {
                Some(v) => self.spec_rrrl() == Some(*v),
                None => self.spec_rrrl() is None,
            },
    {
        match self.right() {
            Some(h) => h.rrl(),
            None => None,
        }
    }

    /// Returns the right-right-right-right leaf if it exists.
    pub fn rrrr(&self) -> (r: Option<&RRRR>)
        ensures
            match r {
                Some(v) => self.spec_rrrr() == Some(*v),
                None => self.spec_rrrr() is None,
            },
    {
        match self.right() {
            Some(h) => h.rrr(),
            None => None,
        }
    }

    /// Returns the sixteen optional leaves in path order.
    pub fn opt16(&self) -> (r: Opt16<
        &LLLL, &LLLR, &LLRL, &LLRR, &LRLL, &LRLR, &LRRL, &LRRR,
        &RLLL, &RLLR, &RLRL, &RLRR, &RRLL, &RRLR, &RRRL, &RRRR,
    >)
        ensures
            match r.0 {
                Some(v) => self.spec_llll() == Some(*v),
                None => self.spec_llll() is None,
            },
            match r.1 {
                Some(v) => self.spec_lllr() == Some(*v),
                None => self.spec_lllr() is None,
            },
            match r.2 {
                Some(v) => self.spec_llrl() == Some(*v),
                None => self.spec_llrl() is None,
            },
            match r.3 {
                Some(v) => self.spec_llrr() == Some(*v),
                None => self.spec_llrr() is None,
            },
            match r.4 {
                Some(v) => self.spec_lrll() == Some(*v),
                None => self.spec_lrll() is None,
            },
            match r.5 {
                Some(v) => self.spec_lrlr() == Some(*v),
                None => self.spec_lrlr() is None,
            },
            match r.6 {
                Some(v) => self.spec_lrrl() == Some(*v),
                None => self.spec_lrrl() is None,
            },
            match r.7 {
                Some(v) => self.spec_lrrr() == Some(*v),
                None => self.spec_lrrr() is None,
            },
            match r.8 {
                Some(v) => self.spec_rlll() == Some(*v),
                None => self.spec_rlll() is None,
            },
            match r.9 {
                Some(v) => self.spec_rllr() == Some(*v),
                None => self.spec_rllr() is None,
            },
            match r.10 {
                Some(v) => self.spec_rlrl() == Some(*v),
                None => self.spec_rlrl() is None,
            },
            match r.11 {
                Some(v) => self.spec_rlrr() == Some(*v),
                None => self.spec_rlrr() is None,
            },
            match r.12 {
                Some(v) => self.spec_rrll() == Some(*v),
                None => self.spec_rrll() is None,
            },
            match r.13 {
                Some(v) => self.spec_rrlr() == Some(*v),
                None => self.spec_rrlr() is None,
            },
            match r.14 {
                Some(v) => self.spec_rrrl() == Some(*v),
                None => self.spec_rrrl() is None,
            },
            match r.15 {
                Some(v) => self.spec_rrrr() == Some(*v),
                None => self.spec_rrrr() is None,
            },
    {
        (
            self.llll(),
            self.lllr(),
            self.llrl(),
            self.llrr(),
            self.lrll(),
            self.lrlr(),
            self.lrrl(),
            self.lrrr(),
            self.rlll(),
            self.rllr(),
            self.rlrl(),
            self.rlrr(),
            self.rrll(),
            self.rrlr(),
            self.rrrl(),
            self.rrrr(),
        )
    }
}

/// Canonical collapse law at arity sixteen: the all-empty input builds
/// `Neither` itself, not a tree of empty halves.
pub proof fn lemma_from_opt16_empty_collapses<
    LLLL, LLLR, LLRL, LLRR, LRLL, LRLR, LRRL, LRRR,
    RLLL, RLLR, RLRL, RLRR, RRLL, RRLR, RRRL, RRRR,
>()
    ensures
        AnyOf16::<
            LLLL, LLLR, LLRL, LLRR, LRLL, LRLR, LRRL, LRRR,
        RLLL, RLLR, RLRL, RLRR, RRLL, RRLR, RRRL, RRRR,
        >::spec_from_opt16(
            (None, None, None, None, None, None, None, None,
            None, None, None, None, None, None, None, None),
        ) == AnyOf::<
            AnyOf8<LLLL, LLLR, LLRL, LLRR, LRLL, LRLR, LRRL, LRRR>,
            AnyOf8<RLLL, RLLR, RLRL, RLRR, RRLL, RRLR, RRRL, RRRR>,
        >::Neither,
{
}

/// Leaf round-trip law at arity sixteen: the sixteen-way value built from
/// sixteen optional leaves returns exactly those leaves from its
/// accessors.
pub proof fn lemma_from_opt16_leaves<
    LLLL, LLLR, LLRL, LLRR, LRLL, LRLR, LRRL, LRRR,
    RLLL, RLLR, RLRL, RLRR, RRLL, RRLR, RRRL, RRRR,
>(
    opt: Opt16<LLLL, LLLR, LLRL, LLRR, LRLL, LRLR, LRRL, LRRR, RLLL, RLLR, RLRL, RLRR, RRLL, RRLR, RRRL, RRRR>,
)
    ensures
        AnyOf16::spec_from_opt16(opt).spec_llll() == opt.0,
        AnyOf16::spec_from_opt16(opt).spec_lllr() == opt.1,
        AnyOf16::spec_from_opt16(opt).spec_llrl() == opt.2,
        AnyOf16::spec_from_opt16(opt).spec_llrr() == opt.3,
        AnyOf16::spec_from_opt16(opt).spec_lrll() == opt.4,
        AnyOf16::spec_from_opt16(opt).spec_lrlr() == opt.5,
        AnyOf16::spec_from_opt16(opt).spec_lrrl() == opt.6,
        AnyOf16::spec_from_opt16(opt).spec_lrrr() == opt.7,
        AnyOf16::spec_from_opt16(opt).spec_rlll() == opt.8,
        AnyOf16::spec_from_opt16(opt).spec_rllr() == opt.9,
        AnyOf16::spec_from_opt16(opt).spec_rlrl() == opt.10,
        AnyOf16::spec_from_opt16(opt).spec_rlrr() == opt.11,
        AnyOf16::spec_from_opt16(opt).spec_rrll() == opt.12,
        AnyOf16::spec_from_opt16(opt).spec_rrlr() == opt.13,
        AnyOf16::spec_from_opt16(opt).spec_rrrl() == opt.14,
        AnyOf16::spec_from_opt16(opt).spec_rrrr() == opt.15,
{
    lemma_from_opt8_leaves((opt.0, opt.1, opt.2, opt.3, opt.4, opt.5, opt.6, opt.7));
    lemma_from_opt8_leaves((opt.8, opt.9, opt.10, opt.11, opt.12, opt.13, opt.14, opt.15));
}


} // verus!
