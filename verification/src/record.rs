//! The structured representation of a value, and its equality circuit.

use vstd::prelude::*;
use crate::boolean::Boolean;
use crate::circuit::Circuit;
use crate::equal::Equal;

verus! {

/// The structured form of a value: an owner field and a list of data
/// entries. How many entries a record has is public circuit shape, fixed at
/// assembly time; the owner and the entries themselves may be secret wires.
#[derive(Clone, Debug)]
pub struct Record {
    owner: u64,
    entries: Vec<u64>,
}

impl Record {
    /// The owner field element.
    pub closed spec fn owner_spec(self) -> u64 {
        self.owner
    }

    /// The data entries.
    pub closed spec fn entries_spec(self) -> Seq<u64> {
        self.entries@
    }

    /// Builds a record from its owner and its data entries.
    pub fn new(owner: u64, entries: Vec<u64>) -> (r: Record)
        ensures
            r.owner_spec() == owner,
            r.entries_spec() == entries@,
    {
        Record { owner, entries }
    }

    /// How many data entries the record has.
    pub fn num_entries(&self) -> (r: usize)
        ensures
            r == self.entries_spec().len(),
    {
        self.entries.len()
    }
}

impl Equal for Record {
    /// Two records denote the same value when their owners agree and their
    /// entries agree entry for entry.
    open spec fn eq_spec(&self, other: &Self) -> bool {
        self.owner_spec() == other.owner_spec()
            && self.entries_spec() == other.entries_spec()
    }

    /// Entry count is public shape: records with different entry counts are
    /// decided constant-false, with no constraint emitted.
    open spec fn eq_is_constant(&self, other: &Self) -> bool {
        self.entries_spec().len() != other.entries_spec().len()
    }

    /// One constraint for the owners and one per compared entry pair; none
    /// when the entry counts already differ.
    open spec fn eq_cost(&self, other: &Self) -> nat {
        if self.entries_spec().len() == other.entries_spec().len() {
            1 + self.entries_spec().len()
        } else {
            0
        }
    }

    fn is_equal(&self, other: &Self, cs: &mut Circuit) -> (r: Boolean) {
        let n = self.entries.len();
        if n != other.entries.len() {
            return Boolean::constant(false);
        }
        cs.enforce();
        let mut all_equal = self.owner == other.owner;
        let mut i: usize = 0;
        while i < n
            invariant
                n == self.entries_spec().len(),
                n == other.entries_spec().len(),
                i <= n,
                cs.constraint_count() == old(cs).constraint_count() + 1 + i,
                old(cs).constraint_count() + 1 + n <= u64::MAX,
                all_equal == (self.owner_spec() == other.owner_spec()
                    && (forall|j: int| 0 <= j < i
                        ==> self.entries_spec()[j] == other.entries_spec()[j])),
            decreases n - i,
        {
            cs.enforce();
            if self.entries[i] != other.entries[i] {
                all_equal = false;
            }
            i = i + 1;
        }
        proof {
            if self.owner_spec() == other.owner_spec() && all_equal {
                assert(self.entries_spec() =~= other.entries_spec());
            } else if self.entries_spec() == other.entries_spec() {
                assert(forall|j: int| 0 <= j < n
                    ==> self.entries_spec()[j] == other.entries_spec()[j]);
            }
        }
        Boolean::computed(all_equal)
    }

    fn is_not_equal(&self, other: &Self, cs: &mut Circuit) -> (r: Boolean) {
        if self.entries.len() != other.entries.len() {
            return Boolean::constant(true);
        }
        let equal = self.is_equal(other, cs);
        equal.not()
    }
}

} // verus!
