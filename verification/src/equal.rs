//! The equality capability that comparable circuit types implement.

use vstd::prelude::*;
use crate::boolean::Boolean;
use crate::circuit::Circuit;

verus! {

/// The equality capability: a comparable circuit type answers equality with
/// a circuit-native [`Boolean`], emitting whatever constraints the answer
/// needs into the context `cs`. The capability carries no state of its own;
/// the only side effect of a comparison is the constraints it emits.
///
/// Each implementor fixes three spec-level views of a comparison: the truth
/// value it denotes (`eq_spec`), whether public circuit shape alone decides
/// it so the returned boolean is a compile-time constant (`eq_is_constant`),
/// and how many constraints it emits (`eq_cost`). `is_equal` and
/// `is_not_equal` are then logical complements by contract: on every pair of
/// operands the one returns the negation of the other, at the same cost and
/// in the same constant/computed mode.
pub trait Equal: Sized {
    /// Whether `self` and `other` denote the same value, under the
    /// semantics of the implementing type.
    spec fn eq_spec(&self, other: &Self) -> bool;

    /// Whether the comparison is decided by public circuit shape alone, so
    /// the returned boolean is a compile-time constant.
    spec fn eq_is_constant(&self, other: &Self) -> bool;

    /// How many constraints one comparison of `self` against `other` emits.
    spec fn eq_cost(&self, other: &Self) -> nat;

    /// Returns a circuit boolean that is true exactly when `self` and
    /// `other` denote the same value.
    fn is_equal(&self, other: &Self, cs: &mut Circuit) -> (r: Boolean)
        requires
            old(cs).constraint_count() + self.eq_cost(other) <= u64::MAX,
        ensures
            r.value() == self.eq_spec(other),
            r.is_constant() == self.eq_is_constant(other),
            final(cs).constraint_count() == old(cs).constraint_count() + self.eq_cost(other),
    ;

    /// Returns the logical complement of `is_equal` on the same operands.
    fn is_not_equal(&self, other: &Self, cs: &mut Circuit) -> (r: Boolean)
        requires
            old(cs).constraint_count() + self.eq_cost(other) <= u64::MAX,
        ensures
            r.value() == !self.eq_spec(other),
            r.is_constant() == self.eq_is_constant(other),
            final(cs).constraint_count() == old(cs).constraint_count() + self.eq_cost(other),
    ;
}

} // verus!
