//! A complex-number value type `re + i*im` over a scalar type.
//!
//! Construction is generic. The four arithmetic operations are given for
//! exact 64-bit integer scalars, each proved against its algebraic formula
//! over mathematical integers (see [`model`]).
use vstd::prelude::*;

pub mod model;
pub mod ops;
pub mod laws;

verus! {

/// A complex number `re + i*im` over a scalar type `T`.
///
/// A plain value: equality is equality of both parts, and copies are
/// independent of one another.
#[derive(Clone, Copy, Debug, PartialEq, Eq, Structural)]
pub struct Complex<T> {
    /// The real part.
    pub re: T,
    /// The imaginary part.
    pub im: T,
}

impl<T> Complex<T> {
    /// Builds `re + i*im`; no validation is performed.
    pub fn new(re: T, im: T) -> (r: Self)
        ensures
            r.re == re,
            r.im == im,
    {
        Complex { re, im }
    }
}

/// Why an operation could not produce a value.
#[derive(Clone, Copy, Debug, PartialEq, Eq, Structural)]
pub enum ComplexError {
    /// The divisor was `0 + 0i`.
    DivisionByZero,
}

} // verus!
