//! A verified total order over the value type of a range.
//!
//! The classifiers compare range end points and nothing else, so all they
//! need of the value type is a total order: a `<=` relation for the
//! specifications, the laws that make it a total order, and an executable
//! three-way comparison that agrees with the relation. [`TotalOrder`]
//! packages exactly that, and is implemented here for the primitive integer
//! types.

use vstd::prelude::*;

verus! {

/// The outcome of comparing two values of a totally ordered type.
#[derive(Debug, Clone, Copy, PartialEq, Eq)]
pub enum Comparison {
    /// The first value is strictly below the second.
    Less,
    /// The two values are equal.
    Equal,
    /// The first value is strictly above the second.
    Greater,
}

/// A type whose values carry a verified total order.
///
/// `le` is the specification-level `<=` relation; the four lemmas oblige an
/// implementation to prove that it really is a total order, and `compare` is
/// the executable comparison, whose contract ties each outcome back to `le`
/// and to equality. Equality of the order is plain structural equality, so a
/// type with several representations of one logical value needs a normal
/// form before it can implement this trait.
pub trait TotalOrder: Sized {
    /// The `<=` relation of the order.
    spec fn le(self, other: Self) -> bool;

    /// Every value is `<=` itself.
    proof fn lemma_reflexive(x: Self)
        ensures
            x.le(x),
    ;

    /// `<=` carries over a middle value.
    proof fn lemma_transitive(x: Self, y: Self, z: Self)
        requires
            x.le(y),
            y.le(z),
        ensures
            x.le(z),
    ;

    /// Two values each `<=` the other are the same value.
    proof fn lemma_antisymmetric(x: Self, y: Self)
        requires
            x.le(y),
            y.le(x),
        ensures
            x == y,
    ;

    /// Any two values are comparable.
    proof fn lemma_total(x: Self, y: Self)
        ensures
            x.le(y) || y.le(x),
    ;

    /// Compare two values, with the outcome pinned to the order.
    fn compare(&self, other: &Self) -> (c: Comparison)
        ensures
            match c {
                Comparison::Less => self.le(*other) && *self != *other,
                Comparison::Equal => *self == *other,
                Comparison::Greater => other.le(*self) && *self != *other,
            },
    ;
}

/// The laws of a total order, restated as quantified facts so that a single
/// call puts them all in scope of a proof.
pub proof fn lemma_order_laws<T: TotalOrder>()
    ensures
        forall|x: T, y: T| #[trigger] x.le(y) || y.le(x),
        forall|x: T, y: T| #![trigger x.le(y), y.le(x)] x.le(y) && y.le(x) ==> x == y,
        forall|x: T, y: T, z: T| #![trigger x.le(y), y.le(z)] x.le(y) && y.le(z) ==> x.le(z),
{
    assert forall|x: T, y: T| #[trigger] x.le(y) || y.le(x) by {
        T::lemma_total(x, y);
    }
    assert forall|x: T, y: T| #![trigger x.le(y), y.le(x)] x.le(y) && y.le(x) implies x == y by {
        T::lemma_antisymmetric(x, y);
    }
    assert forall|x: T, y: T, z: T| #![trigger x.le(y), y.le(z)] x.le(y) && y.le(z) implies x.le(
        z,
    ) by {
        T::lemma_transitive(x, y, z);
    }
}

impl TotalOrder for i8 {
    open spec fn le(self, other: Self) -> bool {
        self <= other
    }

    proof fn lemma_reflexive(x: Self) {
    }

    proof fn lemma_transitive(x: Self, y: Self, z: Self) {
    }

    proof fn lemma_antisymmetric(x: Self, y: Self) {
    }

    proof fn lemma_total(x: Self, y: Self) {
    }

    fn compare(&self, other: &Self) -> (c: Comparison) {
        if *self < *other {
            Comparison::Less
        } else if *self == *other {
            Comparison::Equal
        } else {
            Comparison::Greater
        }
    }
}

impl TotalOrder for i16 {
    open spec fn le(self, other: Self) -> bool {
        self <= other
    }

    proof fn lemma_reflexive(x: Self) {
    }

    proof fn lemma_transitive(x: Self, y: Self, z: Self) {
    }

    proof fn lemma_antisymmetric(x: Self, y: Self) {
    }

    proof fn lemma_total(x: Self, y: Self) {
    }

    fn compare(&self, other: &Self) -> (c: Comparison) {
        if *self < *other {
            Comparison::Less
        } else if *self == *other {
            Comparison::Equal
        } else {
            Comparison::Greater
        }
    }
}

impl TotalOrder for i32 {
    open spec fn le(self, other: Self) -> bool {
        self <= other
    }

    proof fn lemma_reflexive(x: Self) {
    }

    proof fn lemma_transitive(x: Self, y: Self, z: Self) {
    }

    proof fn lemma_antisymmetric(x: Self, y: Self) {
    }

    proof fn lemma_total(x: Self, y: Self) {
    }

    fn compare(&self, other: &Self) -> (c: Comparison) {
        if *self < *other {
            Comparison::Less
        } else if *self == *other {
            Comparison::Equal
        } else {
            Comparison::Greater
        }
    }
}

impl TotalOrder for i64 {
    open spec fn le(self, other: Self) -> bool {
        self <= other
    }

    proof fn lemma_reflexive(x: Self) {
    }

    proof fn lemma_transitive(x: Self, y: Self, z: Self) {
    }

    proof fn lemma_antisymmetric(x: Self, y: Self) {
    }

    proof fn lemma_total(x: Self, y: Self) {
    }

    fn compare(&self, other: &Self) -> (c: Comparison) {
        if *self < *other {
            Comparison::Less
        } else if *self == *other {
            Comparison::Equal
        } else {
            Comparison::Greater
        }
    }
}

impl TotalOrder for isize {
    open spec fn le(self, other: Self) -> bool {
        self <= other
    }

    proof fn lemma_reflexive(x: Self) {
    }

    proof fn lemma_transitive(x: Self, y: Self, z: Self) {
    }

    proof fn lemma_antisymmetric(x: Self, y: Self) {
    }

    proof fn lemma_total(x: Self, y: Self) {
    }

    fn compare(&self, other: &Self) -> (c: Comparison) {
        if *self < *other {
            Comparison::Less
        } else if *self == *other {
            Comparison::Equal
        } else {
            Comparison::Greater
        }
    }
}

impl TotalOrder for u8 {
    open spec fn le(self, other: Self) -> bool {
        self <= other
    }

    proof fn lemma_reflexive(x: Self) {
    }

    proof fn lemma_transitive(x: Self, y: Self, z: Self) {
    }

    proof fn lemma_antisymmetric(x: Self, y: Self) {
    }

    proof fn lemma_total(x: Self, y: Self) {
    }

    fn compare(&self, other: &Self) -> (c: Comparison) {
        if *self < *other {
            Comparison::Less
        } else if *self == *other {
            Comparison::Equal
        } else {
            Comparison::Greater
        }
    }
}

impl TotalOrder for u16 {
    open spec fn le(self, other: Self) -> bool {
        self <= other
    }

    proof fn lemma_reflexive(x: Self) {
    }

    proof fn lemma_transitive(x: Self, y: Self, z: Self) {
    }

    proof fn lemma_antisymmetric(x: Self, y: Self) {
    }

    proof fn lemma_total(x: Self, y: Self) {
    }

    fn compare(&self, other: &Self) -> (c: Comparison) {
        if *self < *other {
            Comparison::Less
        } else if *self == *other {
            Comparison::Equal
        } else {
            Comparison::Greater
        }
    }
}

impl TotalOrder for u32 {
    open spec fn le(self, other: Self) -> bool {
        self <= other
    }

    proof fn lemma_reflexive(x: Self) {
    }

    proof fn lemma_transitive(x: Self, y: Self, z: Self) {
    }

    proof fn lemma_antisymmetric(x: Self, y: Self) {
    }

    proof fn lemma_total(x: Self, y: Self) {
    }

    fn compare(&self, other: &Self) -> (c: Comparison) {
        if *self < *other {
            Comparison::Less
        } else if *self == *other {
            Comparison::Equal
        } else {
            Comparison::Greater
        }
    }
}

impl TotalOrder for u64 {
    open spec fn le(self, other: Self) -> bool {
        self <= other
    }

    proof fn lemma_reflexive(x: Self) {
    }

    proof fn lemma_transitive(x: Self, y: Self, z: Self) {
    }

    proof fn lemma_antisymmetric(x: Self, y: Self) {
    }

    proof fn lemma_total(x: Self, y: Self) {
    }

    fn compare(&self, other: &Self) -> (c: Comparison) {
        if *self < *other {
            Comparison::Less
        } else if *self == *other {
            Comparison::Equal
        } else {
            Comparison::Greater
        }
    }
}

impl TotalOrder for usize {
    open spec fn le(self, other: Self) -> bool {
        self <= other
    }

    proof fn lemma_reflexive(x: Self) {
    }

    proof fn lemma_transitive(x: Self, y: Self, z: Self) {
    }

    proof fn lemma_antisymmetric(x: Self, y: Self) {
    }

    proof fn lemma_total(x: Self, y: Self) {
    }

    fn compare(&self, other: &Self) -> (c: Comparison) {
        if *self < *other {
            Comparison::Less
        } else if *self == *other {
            Comparison::Equal
        } else {
            Comparison::Greater
        }
    }
}

} // verus!
