//! Properties that hold across classification calls.
//!
//! Each lemma here is a law of the classifiers, stated over the
//! specification functions that the executable functions are pinned to:
//! classifying a range against itself, swapping the two ranges, widening
//! the inclusivity mode, and the agreement of the open classifier with the
//! closed one.

use vstd::prelude::*;

use crate::order::lemma_order_laws;
use crate::order::TotalOrder;
use crate::overlap::any_classification;
use crate::overlap::closed_classification;
use crate::overlap::proper_bounds;
use crate::overlap::RangeOverlap;

verus! {

/// Classifying a range against itself yields `AEqualsB`, whatever its
/// shape and whichever the inclusivity mode.
pub proof fn lemma_self_equals<T: TotalOrder>(start: Option<T>, end: Option<T>, inclusive: bool)
    ensures
        any_classification(start, end, start, end, inclusive) == RangeOverlap::AEqualsB,
{
}

/// Swapping the two ranges swaps the asymmetric categories and keeps the
/// symmetric ones: `AContainsB` becomes `AInsideB`, `AEndsInB` becomes
/// `AStartsInB`, each in both directions, while `AEqualsB` and `NoOverlap` stay
/// as they are. This needs each range to be proper, a finite start
/// strictly below a finite end: a range whose two finite bounds meet is
/// classified asymmetrically at its boundary.
pub proof fn lemma_swap_duality<T: TotalOrder>(
    a_start: Option<T>,
    a_end: Option<T>,
    b_start: Option<T>,
    b_end: Option<T>,
    inclusive: bool,
)
    requires
        proper_bounds(a_start, a_end),
        proper_bounds(b_start, b_end),
    ensures
        (any_classification(a_start, a_end, b_start, b_end, inclusive)
            == RangeOverlap::AContainsB) == (any_classification(
            b_start,
            b_end,
            a_start,
            a_end,
            inclusive,
        ) == RangeOverlap::AInsideB),
        (any_classification(a_start, a_end, b_start, b_end, inclusive) == RangeOverlap::AInsideB)
            == (any_classification(b_start, b_end, a_start, a_end, inclusive)
            == RangeOverlap::AContainsB),
        (any_classification(a_start, a_end, b_start, b_end, inclusive) == RangeOverlap::AEndsInB)
            == (any_classification(b_start, b_end, a_start, a_end, inclusive)
            == RangeOverlap::AStartsInB),
        (any_classification(a_start, a_end, b_start, b_end, inclusive)
            == RangeOverlap::AStartsInB) == (any_classification(
            b_start,
            b_end,
            a_start,
            a_end,
            inclusive,
        ) == RangeOverlap::AEndsInB),
        (any_classification(a_start, a_end, b_start, b_end, inclusive) == RangeOverlap::AEqualsB)
            == (any_classification(b_start, b_end, a_start, a_end, inclusive)
            == RangeOverlap::AEqualsB),
        (any_classification(a_start, a_end, b_start, b_end, inclusive) == RangeOverlap::NoOverlap) == (
        any_classification(b_start, b_end, a_start, a_end, inclusive) == RangeOverlap::NoOverlap),
{
    lemma_order_laws::<T>();
}

/// The inclusive mode never loses an overlap that the exclusive mode sees:
/// wherever the exclusive classification is not `NoOverlap`, the inclusive one
/// agrees with it exactly, and so the inclusive mode reports `NoOverlap` only
/// where the exclusive mode does. This holds of every input.
pub proof fn lemma_inclusive_widens<T: TotalOrder>(
    a_start: Option<T>,
    a_end: Option<T>,
    b_start: Option<T>,
    b_end: Option<T>,
)
    ensures
        any_classification(a_start, a_end, b_start, b_end, false) != RangeOverlap::NoOverlap
            ==> any_classification(a_start, a_end, b_start, b_end, true) == any_classification(
            a_start,
            a_end,
            b_start,
            b_end,
            false,
        ),
        any_classification(a_start, a_end, b_start, b_end, true) == RangeOverlap::NoOverlap
            ==> any_classification(a_start, a_end, b_start, b_end, false) == RangeOverlap::NoOverlap,
{
    lemma_order_laws::<T>();
}

/// On four present bounds the open classifier agrees exactly with the
/// closed one, in either inclusivity mode.
pub proof fn lemma_any_extends_closed<T: TotalOrder>(
    a_start: T,
    a_end: T,
    b_start: T,
    b_end: T,
    inclusive: bool,
)
    ensures
        any_classification(
            Option::Some(a_start),
            Option::Some(a_end),
            Option::Some(b_start),
            Option::Some(b_end),
            inclusive,
        ) == closed_classification(a_start, a_end, b_start, b_end, inclusive),
{
}

} // verus!
