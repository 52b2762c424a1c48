use range_overlap::classify_any;
use range_overlap::classify_closed;
use range_overlap::excl_classify;
use range_overlap::has_excl_overlap;
use range_overlap::has_incl_overlap;
use range_overlap::has_open_excl_overlap;
use range_overlap::has_open_incl_overlap;
use range_overlap::incl_classify;
use range_overlap::RangeOverlap;

#[test]
fn ends_in_with_all_bounds_present() {
    assert_eq!(classify_closed(1, 20, 10, 99, false), RangeOverlap::AEndsInB);
    assert_eq!(excl_classify(1, 20, 10, 99), RangeOverlap::AEndsInB);
}

#[test]
fn contains_with_all_bounds_present() {
    assert_eq!(classify_closed(1, 100, 50, 60, false), RangeOverlap::AContainsB);
    assert_eq!(excl_classify(1, 100, 50, 60), RangeOverlap::AContainsB);
}

#[test]
fn ends_in_with_unbounded_start() {
    assert_eq!(classify_any(None, Some(75), Some(25), Some(99), false), RangeOverlap::AEndsInB);
}

#[test]
fn disjoint_closed_ranges() {
    assert_eq!(classify_any(Some(1), Some(25), Some(50), Some(75), false), RangeOverlap::NoOverlap);
}

#[test]
fn boundary_touch_diverges_by_mode() {
    assert_eq!(classify_closed(1, 5, 5, 10, false), RangeOverlap::NoOverlap);
    assert_eq!(classify_closed(1, 5, 5, 10, true), RangeOverlap::AEndsInB);
}

#[test]
fn fully_unbounded_pairs_are_equal_in_both_modes() {
    assert_eq!(classify_any::<i32>(None, None, None, None, false), RangeOverlap::AEqualsB);
    assert_eq!(classify_any::<i32>(None, None, None, None, true), RangeOverlap::AEqualsB);
}

// A range classified against itself is AEqualsB, whatever its shape.
#[test]
fn self_classification_is_equal() {
    for inclusive in [false, true] {
        assert_eq!(
            classify_any(Some(3), Some(8), Some(3), Some(8), inclusive),
            RangeOverlap::AEqualsB
        );
        assert_eq!(classify_any(None, Some(8), None, Some(8), inclusive), RangeOverlap::AEqualsB);
        assert_eq!(classify_any(Some(3), None, Some(3), None, inclusive), RangeOverlap::AEqualsB);
    }
}

// Swapping the two ranges swaps AContainsB with AInsideB and AEndsInB with
// AStartsInB, and keeps AEqualsB and NoOverlap.
#[test]
fn swapping_ranges_mirrors_the_category() {
    for inclusive in [false, true] {
        assert_eq!(
            classify_any(Some(1), Some(100), Some(50), Some(60), inclusive),
            RangeOverlap::AContainsB
        );
        assert_eq!(
            classify_any(Some(50), Some(60), Some(1), Some(100), inclusive),
            RangeOverlap::AInsideB
        );
        assert_eq!(
            classify_any(Some(1), Some(75), Some(25), Some(99), inclusive),
            RangeOverlap::AEndsInB
        );
        assert_eq!(
            classify_any(Some(25), Some(99), Some(1), Some(75), inclusive),
            RangeOverlap::AStartsInB
        );
        assert_eq!(
            classify_any(None, Some(75), Some(25), None, inclusive),
            RangeOverlap::AEndsInB
        );
        assert_eq!(
            classify_any(Some(25), None, None, Some(75), inclusive),
            RangeOverlap::AStartsInB
        );
        assert_eq!(
            classify_any(Some(1), Some(25), Some(50), Some(75), inclusive),
            RangeOverlap::NoOverlap
        );
        assert_eq!(
            classify_any(Some(50), Some(75), Some(1), Some(25), inclusive),
            RangeOverlap::NoOverlap
        );
    }
}

// Wherever the exclusive mode sees an overlap, the inclusive mode agrees
// exactly; the two only part where a boundary touch turns NoOverlap into a
// touching category.
#[test]
fn inclusive_mode_only_widens() {
    let cases = [
        (Some(1), Some(20), Some(10), Some(99)),
        (Some(1), Some(100), Some(50), Some(60)),
        (Some(1), Some(25), Some(50), Some(75)),
        (None, Some(75), Some(25), Some(99)),
        (Some(1), Some(5), Some(5), Some(10)),
        (None, Some(10), Some(10), None),
        (Some(3), Some(8), Some(3), Some(8)),
    ];
    for (a_start, a_end, b_start, b_end) in cases {
        let exclusive = classify_any(a_start, a_end, b_start, b_end, false);
        let inclusive = classify_any(a_start, a_end, b_start, b_end, true);
        if exclusive != RangeOverlap::NoOverlap {
            assert_eq!(inclusive, exclusive);
        }
        if inclusive == RangeOverlap::NoOverlap {
            assert_eq!(exclusive, RangeOverlap::NoOverlap);
        }
    }
}

// With all four bounds present, classify_any agrees exactly with the closed
// classifiers.
#[test]
fn four_present_bounds_degrade_to_closed() {
    let cases = [
        (1, 20, 10, 99),
        (1, 100, 50, 60),
        (1, 25, 50, 75),
        (1, 5, 5, 10),
        (3, 8, 3, 8),
        (50, 99, 1, 75),
        (336, 366, 183, 366),
    ];
    for (a_start, a_end, b_start, b_end) in cases {
        assert_eq!(
            classify_any(Some(a_start), Some(a_end), Some(b_start), Some(b_end), false),
            excl_classify(a_start, a_end, b_start, b_end)
        );
        assert_eq!(
            classify_any(Some(a_start), Some(a_end), Some(b_start), Some(b_end), true),
            incl_classify(a_start, a_end, b_start, b_end)
        );
        assert_eq!(
            classify_closed(a_start, a_end, b_start, b_end, false),
            excl_classify(a_start, a_end, b_start, b_end)
        );
        assert_eq!(
            classify_closed(a_start, a_end, b_start, b_end, true),
            incl_classify(a_start, a_end, b_start, b_end)
        );
    }
}

#[test]
fn has_overlap_reports_every_category_but_no_overlap() {
    assert!(RangeOverlap::AContainsB.has_overlap());
    assert!(RangeOverlap::AInsideB.has_overlap());
    assert!(RangeOverlap::AEndsInB.has_overlap());
    assert!(RangeOverlap::AStartsInB.has_overlap());
    assert!(RangeOverlap::AEqualsB.has_overlap());
    assert!(!RangeOverlap::NoOverlap.has_overlap());
}

#[test]
fn closed_overlap_predicates() {
    assert_eq!(has_excl_overlap(1, 20, 10, 99), true);
    assert_eq!(has_excl_overlap(1, 5, 5, 10), false);
    assert_eq!(has_incl_overlap(1, 5, 5, 10), true);
    assert_eq!(has_incl_overlap(1, 4, 5, 10), false);
}

#[test]
fn open_overlap_predicates() {
    assert_eq!(has_open_excl_overlap(None, Some(10), Some(10), None), false);
    assert_eq!(has_open_incl_overlap(None, Some(10), Some(10), None), true);
    assert_eq!(has_open_incl_overlap::<i32>(None, None, None, None), true);
    assert_eq!(has_open_incl_overlap(Some(1), Some(4), Some(5), None), false);
}

#[test]
fn other_value_types_classify_alike() {
    assert_eq!(classify_closed(1u64, 20u64, 10u64, 99u64, false), RangeOverlap::AEndsInB);
    assert_eq!(classify_closed(1i8, 5i8, 5i8, 10i8, true), RangeOverlap::AEndsInB);
    assert_eq!(classify_closed(1u8, 100u8, 50u8, 60u8, false), RangeOverlap::AContainsB);
    assert_eq!(
        classify_any(Some(1i64), Some(25i64), Some(50i64), None, false),
        RangeOverlap::NoOverlap
    );
    assert_eq!(
        classify_any(Some(-9i16), None, None, Some(75i16), true),
        RangeOverlap::AStartsInB
    );
    assert_eq!(classify_closed(0usize, 7usize, 2usize, 7usize, false), RangeOverlap::AContainsB);
    assert_eq!(
        classify_any(Some(-3isize), Some(4isize), Some(-3isize), Some(4isize), true),
        RangeOverlap::AEqualsB
    );
    assert_eq!(classify_closed(5u16, 9u16, 1u16, 7u16, false), RangeOverlap::AStartsInB);
    assert_eq!(classify_closed(-20i32, -10i32, -15i32, -1i32, false), RangeOverlap::AEndsInB);
}

#[test]
fn half_open_single_sided_comparisons() {
    // A has only an end, B has only a start: one comparison decides.
    assert_eq!(classify_any(None, Some(5), Some(9), None, false), RangeOverlap::NoOverlap);
    assert_eq!(classify_any(None, Some(9), Some(5), None, false), RangeOverlap::AEndsInB);
    // Both have only an end: the ends alone decide.
    assert_eq!(classify_any(None, Some(5), None, Some(9), false), RangeOverlap::AInsideB);
    assert_eq!(classify_any(None, Some(9), None, Some(5), false), RangeOverlap::AContainsB);
    // Both have only a start: the starts alone decide.
    assert_eq!(classify_any(Some(5), None, Some(9), None, true), RangeOverlap::AContainsB);
    assert_eq!(classify_any(Some(9), None, Some(5), None, true), RangeOverlap::AInsideB);
}
