//! What the categories say about the points of the two ranges.
//!
//! [`contains_point`] gives a range its point-set reading: the points at
//! or above a finite start and within a finite end. The lemmas here tie
//! the classifiers to that reading: `NoOverlap` means no shared point, and for
//! proper closed ranges the converse holds too, as does the reading of
//! `AContainsB` and `AInsideB` as the point-set inclusions they name.

use vstd::prelude::*;

use crate::laws::lemma_swap_duality;
use crate::order::lemma_order_laws;
use crate::order::TotalOrder;
use crate::overlap::any_classification;
use crate::overlap::closed_classification;
use crate::overlap::proper_bounds;
use crate::overlap::strictly_below;
use crate::overlap::within_end;
use crate::overlap::RangeOverlap;

verus! {

/// The point `x` lies in the range with the given bounds: at or above a
/// finite start, and within a finite end as the inclusivity mode reads it.
/// An absent bound excludes nothing on its side.
pub open spec fn contains_point<T: TotalOrder>(
    start: Option<T>,
    end: Option<T>,
    inclusive: bool,
    x: T,
) -> bool {
    (match start {
        Option::Some(s) => s.le(x),
        Option::None => true,
    }) && (match end {
        Option::Some(e) => within_end(x, e, inclusive),
        Option::None => true,
    })
}

/// `AEqualsB` is exact on every input: it is the classification precisely
/// when the two ranges have the same start bound and the same end bound,
/// absent sides matching each other.
pub proof fn lemma_equal_exact<T: TotalOrder>(
    a_start: Option<T>,
    a_end: Option<T>,
    b_start: Option<T>,
    b_end: Option<T>,
    inclusive: bool,
)
    ensures
        (any_classification(a_start, a_end, b_start, b_end, inclusive) == RangeOverlap::AEqualsB)
            <==> (a_start == b_start && a_end == b_end),
{
}

/// A classification of `NoOverlap` is never wrong: for proper ranges it means
/// that no point lies in both.
pub proof fn lemma_none_means_disjoint<T: TotalOrder>(
    a_start: Option<T>,
    a_end: Option<T>,
    b_start: Option<T>,
    b_end: Option<T>,
    inclusive: bool,
)
    requires
        proper_bounds(a_start, a_end),
        proper_bounds(b_start, b_end),
    ensures
        any_classification(a_start, a_end, b_start, b_end, inclusive) == RangeOverlap::NoOverlap
            ==> forall|x: T|
            !(contains_point(a_start, a_end, inclusive, x) && contains_point(
                b_start,
                b_end,
                inclusive,
                x,
            )),
{
    lemma_order_laws::<T>();
}

/// For proper closed ranges the overlap predicate is exact: the
/// classification is something other than `NoOverlap` precisely when some
/// point lies in both ranges.
pub proof fn lemma_closed_overlap_exact<T: TotalOrder>(
    a_start: T,
    a_end: T,
    b_start: T,
    b_end: T,
    inclusive: bool,
)
    requires
        strictly_below(a_start, a_end),
        strictly_below(b_start, b_end),
    ensures
        (closed_classification(a_start, a_end, b_start, b_end, inclusive) != RangeOverlap::NoOverlap)
            <==> exists|x: T|
            contains_point(Option::Some(a_start), Option::Some(a_end), inclusive, x)
                && contains_point(Option::Some(b_start), Option::Some(b_end), inclusive, x),
{
    lemma_order_laws::<T>();
    lemma_none_means_disjoint(
        Option::Some(a_start),
        Option::Some(a_end),
        Option::Some(b_start),
        Option::Some(b_end),
        inclusive,
    );
    let r = closed_classification(a_start, a_end, b_start, b_end, inclusive);
    if r == RangeOverlap::AEqualsB || r == RangeOverlap::AStartsInB || r == RangeOverlap::AInsideB {
        assert(contains_point(Option::Some(a_start), Option::Some(a_end), inclusive, a_start)
            && contains_point(Option::Some(b_start), Option::Some(b_end), inclusive, a_start));
    }
    if r == RangeOverlap::AContainsB || r == RangeOverlap::AEndsInB {
        assert(contains_point(Option::Some(a_start), Option::Some(a_end), inclusive, b_start)
            && contains_point(Option::Some(b_start), Option::Some(b_end), inclusive, b_start));
    }
}

/// For proper closed ranges, `AContainsB` and `AEqualsB` together are
/// exactly the pairs where every point of B lies in A.
pub proof fn lemma_contains_exact<T: TotalOrder>(
    a_start: T,
    a_end: T,
    b_start: T,
    b_end: T,
    inclusive: bool,
)
    requires
        strictly_below(a_start, a_end),
        strictly_below(b_start, b_end),
    ensures
        (closed_classification(a_start, a_end, b_start, b_end, inclusive)
            == RangeOverlap::AContainsB || closed_classification(
            a_start,
            a_end,
            b_start,
            b_end,
            inclusive,
        ) == RangeOverlap::AEqualsB) <==> forall|x: T|
            contains_point(Option::Some(b_start), Option::Some(b_end), inclusive, x)
                ==> contains_point(Option::Some(a_start), Option::Some(a_end), inclusive, x),
{
    lemma_order_laws::<T>();
    let r = closed_classification(a_start, a_end, b_start, b_end, inclusive);
    if forall|x: T|
        contains_point(Option::Some(b_start), Option::Some(b_end), inclusive, x)
            ==> contains_point(Option::Some(a_start), Option::Some(a_end), inclusive, x) {
        // The start of B is a point of B, so A must start at or before it;
        // and were A to end inside B, the point of B just at A's end (the
        // end itself in exclusive mode, B's end in inclusive mode) would
        // escape A.
        assert(contains_point(Option::Some(b_start), Option::Some(b_end), inclusive, b_start));
        if inclusive {
            assert(contains_point(Option::Some(b_start), Option::Some(b_end), inclusive, b_end));
        } else if strictly_below(a_end, b_end) {
            assert(contains_point(Option::Some(b_start), Option::Some(b_end), inclusive, a_end));
        }
        assert(r == RangeOverlap::AContainsB || r == RangeOverlap::AEqualsB);
    }
    if r == RangeOverlap::AContainsB || r == RangeOverlap::AEqualsB {
        assert forall|x: T|
            contains_point(Option::Some(b_start), Option::Some(b_end), inclusive, x)
                implies contains_point(Option::Some(a_start), Option::Some(a_end), inclusive,
        x) by {}
    }
}

/// For proper closed ranges, `AInsideB` and `AEqualsB` together are
/// exactly the pairs where every point of A lies in B.
pub proof fn lemma_inside_exact<T: TotalOrder>(
    a_start: T,
    a_end: T,
    b_start: T,
    b_end: T,
    inclusive: bool,
)
    requires
        strictly_below(a_start, a_end),
        strictly_below(b_start, b_end),
    ensures
        (closed_classification(a_start, a_end, b_start, b_end, inclusive) == RangeOverlap::AInsideB
            || closed_classification(a_start, a_end, b_start, b_end, inclusive)
            == RangeOverlap::AEqualsB) <==> forall|x: T|
            contains_point(Option::Some(a_start), Option::Some(a_end), inclusive, x)
                ==> contains_point(Option::Some(b_start), Option::Some(b_end), inclusive, x),
{
    lemma_contains_exact(b_start, b_end, a_start, a_end, inclusive);
    lemma_swap_duality(
        Option::Some(a_start),
        Option::Some(a_end),
        Option::Some(b_start),
        Option::Some(b_end),
        inclusive,
    );
}

} // verus!
