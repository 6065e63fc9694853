//! Plain-value representation of the 4x4 matrices that flow through the
//! engine.
//!
//! The engine never looks inside a matrix: it stores, routes and compares
//! them. Each entry is carried as the raw bit pattern of a 32-bit float, in
//! column-major order, so that the embedding application can convert to and
//! from its linear-algebra types without loss.

use vstd::prelude::*;

verus! {

/// A 4x4 matrix carried as 16 raw 32-bit entries, column-major.
#[derive(Clone, Copy, PartialEq, Eq, Debug)]
pub struct Mat4 {
    /// Raw bit patterns of the entries, column-major.
    pub e: [u32; 16],
}

/// A request for the product `a * b * c`, to be computed by the caller's
/// linear-algebra backend.
#[derive(Clone, Copy, PartialEq, Eq, Debug)]
pub struct MatProduct {
    /// Left factor.
    pub a: Mat4,
    /// Middle factor.
    pub b: Mat4,
    /// Right factor.
    pub c: Mat4,
}

} // verus!
