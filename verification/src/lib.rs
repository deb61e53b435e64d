//! Structural equality for circuit values.
//!
//! This crate builds the polymorphic equality comparator of a
//! circuit-construction library: code that, instead of computing a result
//! directly, emits constraints describing the computation, so that a later
//! proving step can show the computation was performed correctly. The
//! comparator works over a closed sum type of representational variants
//! ([`value::Value`]), delegates to the matching variant's own equality
//! circuit when both operands share a variant, and returns a constant
//! circuit boolean -- at zero constraint cost -- when they do not.

pub mod boolean;
pub mod circuit;
pub mod equal;
pub mod plaintext;
pub mod record;
pub mod value;
