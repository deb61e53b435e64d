//! The constraint-system context that circuit construction threads through
//! every call which may emit constraints.

use vstd::prelude::*;

verus! {

/// The accumulating record of the constraints emitted while assembling a
/// circuit. Every equality comparison takes the context as an explicit
/// `&mut` handle, so emission is auditable: a caller can read the
/// constraint count before and after a call.
pub struct Circuit {
    constraints: u64,
}

impl Circuit {
    /// How many constraints have been emitted into this context so far.
    pub closed spec fn constraint_count(self) -> u64 {
        self.constraints
    }

    /// A fresh context with no constraints.
    pub fn new() -> (r: Circuit)
        ensures
            r.constraint_count() == 0,
    {
        Circuit { constraints: 0 }
    }

    /// Reads the number of constraints emitted so far.
    pub fn num_constraints(&self) -> (r: u64)
        ensures
            r == self.constraint_count(),
    {
        self.constraints
    }

    /// Records one emitted constraint.
    pub(crate) fn enforce(&mut self)
        requires
            old(self).constraint_count() < u64::MAX,
        ensures
            final(self).constraint_count() == old(self).constraint_count() + 1,
    {
        self.constraints = self.constraints + 1;
    }
}

} // verus!
