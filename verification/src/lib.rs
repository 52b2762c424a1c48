//! Classify how two one-dimensional ranges overlap, given their end points.
//!
//! A range is a convex span of an ordered type, described by its two end
//! points. Two distinctions run through the whole crate:
//!
//! - *exclusive* vs. *inclusive*: whether the end value of a range counts as
//!   part of it (the difference between `1..3` and `1..=3` in Rust notation).
//! - *closed* vs. *open*: whether a side of the range is a finite value or
//!   extends without bound. A side that may be open is written as an
//!   `Option`, where `Some(v)` is a finite bound and `None` an unbounded one.
//!   An open side means the same thing for both ranges being compared.
//!
//! The result of a classification is a [`RangeOverlap`], one of six mutually
//! exclusive categories. [`classify_closed`] handles two fully closed ranges,
//! with [`excl_classify`] and [`incl_classify`] as mode-specific entry
//! points; [`classify_any`] accepts closed, half-open, or fully open ranges.
//! The predicates [`has_excl_overlap`], [`has_incl_overlap`],
//! [`has_open_excl_overlap`] and [`has_open_incl_overlap`] reduce a
//! classification to "is there any shared point at all".
//!
//! Every classification function carries a contract that pins its result to
//! the specification functions [`closed_classification`] and
//! [`any_classification`], and the lemmas in [`laws`] prove the properties
//! that hold across calls: reflexivity, duality under swapping the two
//! ranges, monotonicity in the inclusivity mode, and agreement of the open
//! classifier with the closed one on fully closed input. The lemmas in
//! [`meaning`] tie the categories back to the points the ranges share.
//!
//! The value type is any type with a verified total order: see
//! [`TotalOrder`], which this crate implements for the primitive integer
//! types.

pub mod order;
pub mod overlap;
pub mod laws;
pub mod meaning;

pub use order::Comparison;
pub use order::TotalOrder;
pub use overlap::any_classification;
pub use overlap::classify_any;
pub use overlap::classify_closed;
pub use overlap::closed_classification;
pub use overlap::excl_classify;
pub use overlap::has_excl_overlap;
pub use overlap::has_incl_overlap;
pub use overlap::has_open_excl_overlap;
pub use overlap::has_open_incl_overlap;
pub use overlap::incl_classify;
pub use overlap::RangeOverlap;
