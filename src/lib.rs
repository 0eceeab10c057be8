//! Cached powers of a base as normalized extended-precision floats, and the
//! lookup that composes one for any exponent in range.

pub mod base10;
pub mod base10_proofs;
pub mod cached;
pub mod laws;
pub mod math;
