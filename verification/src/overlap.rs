//! The overlap categories and the classifiers that produce them.
//!
//! The specification functions [`closed_classification`] and
//! [`any_classification`] define the result of every classification: the
//! first as the six-branch decision of two fully closed ranges, the second
//! as an explicit decision per shape, one arm for each of the sixteen
//! combinations of present and absent bounds. The executable functions are
//! proved to return exactly those results.

use vstd::prelude::*;

use crate::order::lemma_order_laws;
use crate::order::Comparison;
use crate::order::TotalOrder;

verus! {

/// The kind of overlap between two ranges, A and B.
///
/// The six categories are mutually exclusive and cover every pair of
/// ranges.
#[derive(Debug, PartialEq, Eq, Clone, Copy, Structural)]
pub enum RangeOverlap {
    /// Every point of the second range is also in the first, and the two
    /// are not equal. Shared bounds count: A may contain B even when the
    /// ranges start or end together.
    AContainsB,
    /// Every point of the first range is also in the second, and the two
    /// are not equal.
    AInsideB,
    /// A starts before B and A's end falls inside B. When A's end equals
    /// B's start, the ranges touch: that is `AEndsInB` in inclusive mode
    /// and `NoOverlap` in exclusive mode.
    AEndsInB,
    /// A's start falls inside B and A extends past B's end. When A's start
    /// equals B's end, the ranges touch: that is `AStartsInB` in inclusive
    /// mode and `NoOverlap` in exclusive mode.
    AStartsInB,
    /// Both ranges have the same bounds, absent sides matching each other.
    AEqualsB,
    /// The two ranges share no point.
    NoOverlap,
}

impl RangeOverlap {
    /// Returns `true` when the category reports any shared point at all.
    pub fn has_overlap(&self) -> (r: bool)
        ensures
            r == !(*self is NoOverlap),
    {
        !(matches!(self, RangeOverlap::NoOverlap))
    }
}

/// `x` is strictly below `y` in the order.
pub open spec fn strictly_below<T: TotalOrder>(x: T, y: T) -> bool {
    x.le(y) && x != y
}

/// `x` lies on the inner side of an end bound at `end`: strictly below it,
/// or at it when the end is inclusive.
pub open spec fn within_end<T: TotalOrder>(x: T, end: T, inclusive: bool) -> bool {
    if inclusive {
        x.le(end)
    } else {
        strictly_below(x, end)
    }
}

/// A range ending at `end` shares no point with one starting at `start`:
/// the end lies at or before the start, where landing exactly on the start
/// only counts as a miss in exclusive mode.
pub open spec fn misses<T: TotalOrder>(end: T, start: T, inclusive: bool) -> bool {
    if inclusive {
        strictly_below(end, start)
    } else {
        end.le(start)
    }
}

/// The pair of bounds describes a proper range: where both are finite,
/// the start lies strictly below the end.
pub open spec fn proper_bounds<T: TotalOrder>(start: Option<T>, end: Option<T>) -> bool {
    match (start, end) {
        (Option::Some(s), Option::Some(e)) => strictly_below(s, e),
        _ => true,
    }
}

/// The overlap category of two fully closed ranges.
///
/// The branches decide, in order: equal bounds; A containing B; A ending
/// inside B; A starting inside B; no shared point; and, all else failing,
/// A lying inside B. The two inclusivity modes differ only in whether an
/// end landing exactly on the other range's start still counts as inside
/// it.
pub open spec fn closed_classification<T: TotalOrder>(
    a_start: T,
    a_end: T,
    b_start: T,
    b_end: T,
    inclusive: bool,
) -> RangeOverlap {
    if a_start == b_start && a_end == b_end {
        RangeOverlap::AEqualsB
    } else if a_start.le(b_start) && b_end.le(a_end) {
        RangeOverlap::AContainsB
    } else if strictly_below(a_start, b_start) && within_end(b_start, a_end, inclusive)
        && a_end.le(b_end) {
        RangeOverlap::AEndsInB
    } else if strictly_below(b_start, a_start) && within_end(a_start, b_end, inclusive)
        && strictly_below(b_end, a_end) {
        RangeOverlap::AStartsInB
    } else if b_end.le(a_start) || a_end.le(b_start) {
        RangeOverlap::NoOverlap
    } else {
        RangeOverlap::AInsideB
    }
}

/// The overlap category of two ranges any of whose four bounds may be
/// absent, an absent bound meaning that the side is unbounded.
///
/// One arm per combination of present and absent bounds. A side on which
/// both ranges are unbounded tells the two apart in nothing; a bound that
/// one range has and the other lacks means the unbounded one extends
/// further on that side. With all four bounds present the decision is
/// [`closed_classification`].
pub open spec fn any_classification<T: TotalOrder>(
    a_start: Option<T>,
    a_end: Option<T>,
    b_start: Option<T>,
    b_end: Option<T>,
    inclusive: bool,
) -> RangeOverlap {
    match (a_start, a_end, b_start, b_end) {
        (Option::None, Option::None, Option::None, Option::None) => RangeOverlap::AEqualsB,
        (Option::None, Option::None, Option::None, Option::Some(_)) => RangeOverlap::AContainsB,
        (Option::None, Option::None, Option::Some(_), Option::None) => RangeOverlap::AContainsB,
        (Option::None, Option::None, Option::Some(_), Option::Some(_)) => RangeOverlap::AContainsB,
        (Option::None, Option::Some(_), Option::None, Option::None) => RangeOverlap::AInsideB,
        (Option::None, Option::Some(ea), Option::None, Option::Some(eb)) => {
            // Both ranges run from the same unbounded start: only the ends decide.
            if ea == eb {
                RangeOverlap::AEqualsB
            } else if strictly_below(ea, eb) {
                RangeOverlap::AInsideB
            } else {
                RangeOverlap::AContainsB
            }
        },
        (Option::None, Option::Some(ea), Option::Some(sb), Option::None) => {
            if misses(ea, sb, inclusive) {
                RangeOverlap::NoOverlap
            } else {
                RangeOverlap::AEndsInB
            }
        },
        (Option::None, Option::Some(ea), Option::Some(sb), Option::Some(eb)) => {
            if misses(ea, sb, inclusive) {
                RangeOverlap::NoOverlap
            } else if within_end(sb, ea, inclusive) && strictly_below(ea, eb) {
                RangeOverlap::AEndsInB
            } else {
                RangeOverlap::AContainsB
            }
        },
        (Option::Some(_), Option::None, Option::None, Option::None) => RangeOverlap::AInsideB,
        (Option::Some(sa), Option::None, Option::None, Option::Some(eb)) => {
            if misses(eb, sa, inclusive) {
                RangeOverlap::NoOverlap
            } else {
                RangeOverlap::AStartsInB
            }
        },
        (Option::Some(sa), Option::None, Option::Some(sb), Option::None) => {
            // Both ranges run to the same unbounded end: only the starts decide.
            if sa == sb {
                RangeOverlap::AEqualsB
            } else if strictly_below(sa, sb) {
                RangeOverlap::AContainsB
            } else {
                RangeOverlap::AInsideB
            }
        },
        (Option::Some(sa), Option::None, Option::Some(sb), Option::Some(eb)) => {
            if sa.le(sb) {
                RangeOverlap::AContainsB
            } else if within_end(sa, eb, inclusive) {
                RangeOverlap::AStartsInB
            } else {
                RangeOverlap::NoOverlap
            }
        },
        (Option::Some(_), Option::Some(_), Option::None, Option::None) => RangeOverlap::AInsideB,
        (Option::Some(sa), Option::Some(ea), Option::None, Option::Some(eb)) => {
            if misses(eb, sa, inclusive) {
                RangeOverlap::NoOverlap
            } else if ea.le(eb) {
                RangeOverlap::AInsideB
            } else {
                RangeOverlap::AStartsInB
            }
        },
        (Option::Some(sa), Option::Some(ea), Option::Some(sb), Option::None) => {
            if misses(ea, sb, inclusive) {
                RangeOverlap::NoOverlap
            } else if sb.le(sa) {
                RangeOverlap::AInsideB
            } else {
                RangeOverlap::AEndsInB
            }
        },
        (Option::Some(sa), Option::Some(ea), Option::Some(sb), Option::Some(eb)) => {
            closed_classification(sa, ea, sb, eb, inclusive)
        },
    }
}

/// Classify the overlap of two fully closed ranges, with `a_end` and
/// `b_end` part of their ranges when `inclusive` is `true`.
pub fn classify_closed<T: TotalOrder>(
    a_start: T,
    a_end: T,
    b_start: T,
    b_end: T,
    inclusive: bool,
) -> (r: RangeOverlap)
    ensures
        r == closed_classification(a_start, a_end, b_start, b_end, inclusive),
{
    proof {
        lemma_order_laws::<T>();
    }
    let start_cmp = a_start.compare(&b_start);
    let end_cmp = a_end.compare(&b_end);
    if matches!(start_cmp, Comparison::Equal) && matches!(end_cmp, Comparison::Equal) {
        RangeOverlap::AEqualsB
    } else if !(matches!(start_cmp, Comparison::Greater)) && !(matches!(
        end_cmp,
        Comparison::Less,
    )) {
        RangeOverlap::AContainsB
    } else {
        let end_start_cmp = a_end.compare(&b_start);
        let start_end_cmp = a_start.compare(&b_end);
        let a_end_in_b = if inclusive {
            !(matches!(end_start_cmp, Comparison::Less))
        } else {
            matches!(end_start_cmp, Comparison::Greater)
        };
        let a_start_in_b = if inclusive {
            !(matches!(start_end_cmp, Comparison::Greater))
        } else {
            matches!(start_end_cmp, Comparison::Less)
        };
        if matches!(start_cmp, Comparison::Less) && a_end_in_b && !(matches!(
            end_cmp,
            Comparison::Greater,
        )) {
            RangeOverlap::AEndsInB
        } else if matches!(start_cmp, Comparison::Greater) && a_start_in_b && matches!(
            end_cmp,
            Comparison::Greater,
        ) {
            RangeOverlap::AStartsInB
        } else if !(matches!(start_end_cmp, Comparison::Less)) || !(matches!(
            end_start_cmp,
            Comparison::Greater,
        )) {
            RangeOverlap::NoOverlap
        } else {
            RangeOverlap::AInsideB
        }
    }
}

/// Classify the overlap of two fully closed ranges whose ends are not part
/// of them.
pub fn excl_classify<T: TotalOrder>(a_start: T, a_end: T, b_start: T, b_end: T) -> (r:
    RangeOverlap)
    ensures
        r == closed_classification(a_start, a_end, b_start, b_end, false),
{
    classify_closed(a_start, a_end, b_start, b_end, false)
}

/// Classify the overlap of two fully closed ranges whose ends are part of
/// them.
pub fn incl_classify<T: TotalOrder>(a_start: T, a_end: T, b_start: T, b_end: T) -> (r:
    RangeOverlap)
    ensures
        r == closed_classification(a_start, a_end, b_start, b_end, true),
{
    classify_closed(a_start, a_end, b_start, b_end, true)
}

/// Classify the overlap of two ranges that may be closed, half-open, or
/// fully open: a bound given as `None` marks that side as unbounded. The
/// last parameter tells whether `a_end` and `b_end` are part of their
/// ranges.
pub fn classify_any<T: TotalOrder>(
    a_start: Option<T>,
    a_end: Option<T>,
    b_start: Option<T>,
    b_end: Option<T>,
    inclusive: bool,
) -> (r: RangeOverlap)
    ensures
        r == any_classification(a_start, a_end, b_start, b_end, inclusive),
{
    proof {
        lemma_order_laws::<T>();
    }
    match (a_start, a_end, b_start, b_end) {
        (Option::None, Option::None, Option::None, Option::None) => RangeOverlap::AEqualsB,
        (Option::None, Option::None, Option::None, Option::Some(_)) => RangeOverlap::AContainsB,
        (Option::None, Option::None, Option::Some(_), Option::None) => RangeOverlap::AContainsB,
        (Option::None, Option::None, Option::Some(_), Option::Some(_)) => RangeOverlap::AContainsB,
        (Option::None, Option::Some(_), Option::None, Option::None) => RangeOverlap::AInsideB,
        (Option::None, Option::Some(ea), Option::None, Option::Some(eb)) => {
            match ea.compare(&eb) {
                Comparison::Equal => RangeOverlap::AEqualsB,
                Comparison::Less => RangeOverlap::AInsideB,
                Comparison::Greater => RangeOverlap::AContainsB,
            }
        },
        (Option::None, Option::Some(ea), Option::Some(sb), Option::None) => {
            match ea.compare(&sb) {
                Comparison::Less => RangeOverlap::NoOverlap,
                Comparison::Equal => if inclusive {
                    RangeOverlap::AEndsInB
                } else {
                    RangeOverlap::NoOverlap
                },
                Comparison::Greater => RangeOverlap::AEndsInB,
            }
        },
        (Option::None, Option::Some(ea), Option::Some(sb), Option::Some(eb)) => {
            let end_start_cmp = ea.compare(&sb);
            let missed = match end_start_cmp {
                Comparison::Less => true,
                Comparison::Equal => !inclusive,
                Comparison::Greater => false,
            };
            if missed {
                RangeOverlap::NoOverlap
            } else if matches!(ea.compare(&eb), Comparison::Less) {
                RangeOverlap::AEndsInB
            } else {
                RangeOverlap::AContainsB
            }
        },
        (Option::Some(_), Option::None, Option::None, Option::None) => RangeOverlap::AInsideB,
        (Option::Some(sa), Option::None, Option::None, Option::Some(eb)) => {
            match eb.compare(&sa) {
                Comparison::Less => RangeOverlap::NoOverlap,
                Comparison::Equal => if inclusive {
                    RangeOverlap::AStartsInB
                } else {
                    RangeOverlap::NoOverlap
                },
                Comparison::Greater => RangeOverlap::AStartsInB,
            }
        },
        (Option::Some(sa), Option::None, Option::Some(sb), Option::None) => {
            match sa.compare(&sb) {
                Comparison::Equal => RangeOverlap::AEqualsB,
                Comparison::Less => RangeOverlap::AContainsB,
                Comparison::Greater => RangeOverlap::AInsideB,
            }
        },
        (Option::Some(sa), Option::None, Option::Some(sb), Option::Some(eb)) => {
            if !(matches!(sa.compare(&sb), Comparison::Greater)) {
                RangeOverlap::AContainsB
            } else {
                let start_end_cmp = sa.compare(&eb);
                let inside = match start_end_cmp {
                    Comparison::Less => true,
                    Comparison::Equal => inclusive,
                    Comparison::Greater => false,
                };
                if inside {
                    RangeOverlap::AStartsInB
                } else {
                    RangeOverlap::NoOverlap
                }
            }
        },
        (Option::Some(_), Option::Some(_), Option::None, Option::None) => RangeOverlap::AInsideB,
        (Option::Some(sa), Option::Some(ea), Option::None, Option::Some(eb)) => {
            let end_start_cmp = eb.compare(&sa);
            let missed = match end_start_cmp {
                Comparison::Less => true,
                Comparison::Equal => !inclusive,
                Comparison::Greater => false,
            };
            if missed {
                RangeOverlap::NoOverlap
            } else if !(matches!(ea.compare(&eb), Comparison::Greater)) {
                RangeOverlap::AInsideB
            } else {
                RangeOverlap::AStartsInB
            }
        },
        (Option::Some(sa), Option::Some(ea), Option::Some(sb), Option::None) => {
            let end_start_cmp = ea.compare(&sb);
            let missed = match end_start_cmp {
                Comparison::Less => true,
                Comparison::Equal => !inclusive,
                Comparison::Greater => false,
            };
            if missed {
                RangeOverlap::NoOverlap
            } else if !(matches!(sa.compare(&sb), Comparison::Less)) {
                RangeOverlap::AInsideB
            } else {
                RangeOverlap::AEndsInB
            }
        },
        (Option::Some(sa), Option::Some(ea), Option::Some(sb), Option::Some(eb)) => {
            classify_closed(sa, ea, sb, eb, inclusive)
        },
    }
}

/// Returns `true` when the two closed ranges share a point, with `a_end`
/// and `b_end` not part of their ranges.
pub fn has_excl_overlap<T: TotalOrder>(a_start: T, a_end: T, b_start: T, b_end: T) -> (r: bool)
    ensures
        r == !(closed_classification(a_start, a_end, b_start, b_end, false) is NoOverlap),
{
    excl_classify(a_start, a_end, b_start, b_end).has_overlap()
}

/// Returns `true` when the two closed ranges share a point, with `a_end`
/// and `b_end` part of their ranges.
pub fn has_incl_overlap<T: TotalOrder>(a_start: T, a_end: T, b_start: T, b_end: T) -> (r: bool)
    ensures
        r == !(closed_classification(a_start, a_end, b_start, b_end, true) is NoOverlap),
{
    incl_classify(a_start, a_end, b_start, b_end).has_overlap()
}

/// Returns `true` when the two ranges, each side possibly unbounded, share
/// a point, with `a_end` and `b_end` not part of their ranges.
pub fn has_open_excl_overlap<T: TotalOrder>(
    a_start: Option<T>,
    a_end: Option<T>,
    b_start: Option<T>,
    b_end: Option<T>,
) -> (r: bool)
    ensures
        r == !(any_classification(a_start, a_end, b_start, b_end, false) is NoOverlap),
{
    classify_any(a_start, a_end, b_start, b_end, false).has_overlap()
}

/// Returns `true` when the two ranges, each side possibly unbounded, share
/// a point, with `a_end` and `b_end` part of their ranges.
pub fn has_open_incl_overlap<T: TotalOrder>(
    a_start: Option<T>,
    a_end: Option<T>,
    b_start: Option<T>,
    b_end: Option<T>,
) -> (r: bool)
    ensures
        r == !(any_classification(a_start, a_end, b_start, b_end, true) is NoOverlap),
{
    classify_any(a_start, a_end, b_start, b_end, true).has_overlap()
}

} // verus!
