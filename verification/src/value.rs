//! The value sum type and its variant-dispatch equality comparator.

use vstd::prelude::*;
use crate::boolean::Boolean;
use crate::circuit::Circuit;
use crate::equal::Equal;
use crate::plaintext::Plaintext;
use crate::record::Record;

verus! {

/// A circuit value: a closed sum of its representational forms. Every
/// instance carries exactly one variant tag, fixed at construction; the tag
/// is circuit-shape metadata known at assembly time, never a secret wire, so
/// the comparator may branch on it at the host level without emitting a
/// multiplexing constraint.
#[derive(Clone, Debug)]
pub enum Value {
    /// The flat encoded form.
    Plaintext(Plaintext),
    /// The structured form.
    Record(Record),
}

impl Value {
    /// Whether the two values carry the same variant tag.
    pub open spec fn same_variant(self, other: Value) -> bool {
        match (self, other) {
            (Value::Plaintext(_), Value::Plaintext(_)) => true,
            (Value::Record(_), Value::Record(_)) => true,
            _ => false,
        }
    }
}

impl Equal for Value {
    /// Two values denote the same value exactly when they carry the same
    /// variant tag and the matching variant's own equality holds of the
    /// payloads. Mismatched variants are unequal regardless of payload
    /// content; the dispatcher never inspects a payload across variants.
    open spec fn eq_spec(&self, other: &Self) -> bool {
        match (self, other) {
            (Value::Plaintext(a), Value::Plaintext(b)) => a.eq_spec(b),
            (Value::Record(a), Value::Record(b)) => a.eq_spec(b),
            _ => false,
        }
    }

    /// A mismatched pair is decided by the public tags alone; a matched pair
    /// is a constant exactly when the variant's own comparison is.
    open spec fn eq_is_constant(&self, other: &Self) -> bool {
        match (self, other) {
            (Value::Plaintext(a), Value::Plaintext(b)) => a.eq_is_constant(b),
            (Value::Record(a), Value::Record(b)) => a.eq_is_constant(b),
            _ => true,
        }
    }

    /// A matched pair costs what the variant's own comparison costs; a
    /// mismatched pair costs nothing.
    open spec fn eq_cost(&self, other: &Self) -> nat {
        match (self, other) {
            (Value::Plaintext(a), Value::Plaintext(b)) => a.eq_cost(b),
            (Value::Record(a), Value::Record(b)) => a.eq_cost(b),
            _ => 0,
        }
    }

    /// Returns `true` if `self` and `other` are equal: matched variants
    /// delegate to the variant's own `is_equal` and return its result
    /// verbatim; mismatched variants return the constant `false` and emit
    /// nothing.
    fn is_equal(&self, other: &Self, cs: &mut Circuit) -> (r: Boolean) {
        match (self, other) {
            (Value::Plaintext(a), Value::Plaintext(b)) => a.is_equal(b, cs),
            (Value::Record(a), Value::Record(b)) => a.is_equal(b, cs),
            (Value::Plaintext(..), _) | (Value::Record(..), _) => Boolean::constant(false),
        }
    }

    /// Returns `true` if `self` and `other` are *not* equal: matched
    /// variants delegate to the variant's own `is_not_equal` and return its
    /// result verbatim; mismatched variants return the constant `true` and
    /// emit nothing.
    fn is_not_equal(&self, other: &Self, cs: &mut Circuit) -> (r: Boolean) {
        match (self, other) {
            (Value::Plaintext(a), Value::Plaintext(b)) => a.is_not_equal(b, cs),
            (Value::Record(a), Value::Record(b)) => a.is_not_equal(b, cs),
            (Value::Plaintext(..), _) | (Value::Record(..), _) => Boolean::constant(true),
        }
    }
}

/// Cross-variant constancy, zero cost on mismatch: a pair of values with
/// different variant tags is unequal whatever the payloads hold, its
/// comparison is decided as a compile-time constant, and it emits no
/// constraint. With the comparator's contract this pins the mismatched path:
/// `is_equal` returns the constant `false`, `is_not_equal` the constant
/// `true`, and the constraint count of the context does not move.
pub proof fn lemma_mismatched_variants_constant(a: Value, b: Value)
    requires
        !a.same_variant(b),
    ensures
        !a.eq_spec(&b),
        a.eq_is_constant(&b),
        a.eq_cost(&b) == 0,
{
}

/// Symmetry of the mismatch case: swapping the operands of a mismatched
/// pair leaves it mismatched, so both orders are decided by the same
/// constants at the same zero cost.
pub proof fn lemma_mismatch_symmetric(a: Value, b: Value)
    requires
        !a.same_variant(b),
    ensures
        !b.same_variant(a),
        b.eq_spec(&a) == a.eq_spec(&b),
        b.eq_is_constant(&a) == a.eq_is_constant(&b),
        b.eq_cost(&a) == a.eq_cost(&b),
{
}

/// Matched-variant delegation, flat encoded form: on two `Plaintext` values
/// the comparator's meaning, constancy and cost are exactly those of the
/// `Plaintext` provider on the payloads, so the delegated result is returned
/// unaltered.
pub proof fn lemma_plaintext_delegation(a: Plaintext, b: Plaintext)
    ensures
        Value::Plaintext(a).eq_spec(&Value::Plaintext(b)) == a.eq_spec(&b),
        Value::Plaintext(a).eq_is_constant(&Value::Plaintext(b)) == a.eq_is_constant(&b),
        Value::Plaintext(a).eq_cost(&Value::Plaintext(b)) == a.eq_cost(&b),
{
}

/// Matched-variant delegation, structured form: on two `Record` values the
/// comparator's meaning, constancy and cost are exactly those of the
/// `Record` provider on the payloads, so the delegated result is returned
/// unaltered.
pub proof fn lemma_record_delegation(a: Record, b: Record)
    ensures
        Value::Record(a).eq_spec(&Value::Record(b)) == a.eq_spec(&b),
        Value::Record(a).eq_is_constant(&Value::Record(b)) == a.eq_is_constant(&b),
        Value::Record(a).eq_cost(&Value::Record(b)) == a.eq_cost(&b),
{
}

} // verus!
