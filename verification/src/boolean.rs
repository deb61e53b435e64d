//! The circuit-native boolean type that every equality comparison returns.

use vstd::prelude::*;

verus! {

/// A boolean inside the circuit, as opposed to a host-language `bool`. It is
/// either a compile-time constant baked into the circuit shape with no
/// associated constraint, or a computed value tied to constraints that a
/// comparison emitted. A boolean is never mutated in place: composition
/// produces new values.
#[derive(Clone, Copy, PartialEq, Eq, Structural, Debug)]
pub struct Boolean {
    constant: bool,
    bit: bool,
}

impl Boolean {
    /// Whether this boolean is a compile-time constant, decided by public
    /// circuit shape alone, with no constraint backing it.
    pub closed spec fn is_constant(self) -> bool {
        self.constant
    }

    /// The truth value this boolean resolves to.
    pub closed spec fn value(self) -> bool {
        self.bit
    }

    /// Builds a constant circuit boolean from a host-level bit. No
    /// constraint is associated with the result.
    pub fn constant(bit: bool) -> (r: Boolean)
        ensures
            r.is_constant(),
            r.value() == bit,
    {
        Boolean { constant: true, bit }
    }

    /// Wraps the bit that an emitted sub-circuit computes into a circuit
    /// boolean owned by the caller.
    pub(crate) fn computed(bit: bool) -> (r: Boolean)
        ensures
            !r.is_constant(),
            r.value() == bit,
    {
        Boolean { constant: false, bit }
    }

    /// Logical negation. Negation is free in the circuit: it emits no
    /// constraint and keeps the constant/computed mode of its operand.
    pub fn not(&self) -> (r: Boolean)
        ensures
            r.value() == !self.value(),
            r.is_constant() == self.is_constant(),
    {
        Boolean { constant: self.constant, bit: !self.bit }
    }

    /// Reads the resolved truth value out of the circuit.
    pub fn eject_value(&self) -> (r: bool)
        ensures
            r == self.value(),
    {
        self.bit
    }

    /// Reads whether this boolean is a compile-time constant.
    pub fn eject_is_constant(&self) -> (r: bool)
        ensures
            r == self.is_constant(),
    {
        self.constant
    }
}

} // verus!
