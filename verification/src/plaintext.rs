//! The flat encoded representation of a value, and its equality circuit.

use vstd::prelude::*;
use crate::boolean::Boolean;
use crate::circuit::Circuit;
use crate::equal::Equal;

verus! {

/// The flat encoded form of a value: a sequence of field elements. How many
/// elements an encoding has is public circuit shape, fixed at assembly time;
/// the elements themselves may be secret wires.
#[derive(Clone, Debug)]
pub struct Plaintext {
    elements: Vec<u64>,
}

impl Plaintext {
    /// The encoded field elements.
    pub closed spec fn elements_spec(self) -> Seq<u64> {
        self.elements@
    }

    /// Builds an encoding from its field elements.
    pub fn new(elements: Vec<u64>) -> (r: Plaintext)
        ensures
            r.elements_spec() == elements@,
    {
        Plaintext { elements }
    }

    /// How many field elements the encoding has.
    pub fn num_elements(&self) -> (r: usize)
        ensures
            r == self.elements_spec().len(),
    {
        self.elements.len()
    }
}

impl Equal for Plaintext {
    /// Two encodings denote the same value when they agree element for
    /// element.
    open spec fn eq_spec(&self, other: &Self) -> bool {
        self.elements_spec() == other.elements_spec()
    }

    /// Length is public shape: encodings of different length are decided
    /// constant-false, with no constraint emitted.
    open spec fn eq_is_constant(&self, other: &Self) -> bool {
        self.elements_spec().len() != other.elements_spec().len()
    }

    /// One constraint per compared element pair; none when the lengths
    /// already differ.
    open spec fn eq_cost(&self, other: &Self) -> nat {
        if self.elements_spec().len() == other.elements_spec().len() {
            self.elements_spec().len()
        } else {
            0
        }
    }

    fn is_equal(&self, other: &Self, cs: &mut Circuit) -> (r: Boolean) {
        let n = self.elements.len();
        if n != other.elements.len() {
            return Boolean::constant(false);
        }
        let mut all_equal = true;
        let mut i: usize = 0;
        while i < n
            invariant
                n == self.elements_spec().len(),
                n == other.elements_spec().len(),
                i <= n,
                cs.constraint_count() == old(cs).constraint_count() + i,
                old(cs).constraint_count() + n <= u64::MAX,
                all_equal == (forall|j: int| 0 <= j < i
                    ==> self.elements_spec()[j] == other.elements_spec()[j]),
            decreases n - i,
        {
            cs.enforce();
            if self.elements[i] != other.elements[i] {
                all_equal = false;
            }
            i = i + 1;
        }
        proof {
            if all_equal {
                assert(self.elements_spec() =~= other.elements_spec());
            } else if self.elements_spec() == other.elements_spec() {
                assert(forall|j: int| 0 <= j < n
                    ==> self.elements_spec()[j] == other.elements_spec()[j]);
            }
        }
        Boolean::computed(all_equal)
    }

    fn is_not_equal(&self, other: &Self, cs: &mut Circuit) -> (r: Boolean) {
        if self.elements.len() != other.elements.len() {
            return Boolean::constant(true);
        }
        let equal = self.is_equal(other, cs);
        equal.not()
    }
}

} // verus!
