//! Abstract scalar field of the simulation.
//!
//! Every numeric quantity in the library is a value of a type implementing
//! [`Real`].  The library never fixes the representation: the host picks one
//! (typically a wrapper around a hardware floating-point type) and with it
//! decides the rounding behaviour.  No contract in this crate constrains the
//! results of these operations; what the library proves is independent of the
//! arithmetic: array shapes, write sets, latching, ordering of the tick
//! pipeline, and the exact error discipline.

use vstd::prelude::*;

verus! {

/// Scalar operations the simulation needs.  Implementations live outside the
/// library (the host binary and the test suite instantiate it with `f64`).
pub trait Real: Sized + Copy {
    /// Addition.
    fn plus(self, other: Self) -> Self;

    /// Subtraction.
    fn minus(self, other: Self) -> Self;

    /// Multiplication.
    fn times(self, other: Self) -> Self;

    /// Division.
    fn over(self, other: Self) -> Self;

    /// Additive inverse.
    fn neg(self) -> Self;

    /// Square root.
    fn sqrt(self) -> Self;

    /// Raise to a scalar power.
    fn powf(self, exponent: Self) -> Self;

    /// Sine.
    fn sin(self) -> Self;

    /// Cosine.
    fn cos(self) -> Self;

    /// Inverse sine.
    fn asin(self) -> Self;

    /// Quadrant-aware inverse tangent of `self / other`.
    fn atan2(self, other: Self) -> Self;

    /// Absolute value.
    fn abs(self) -> Self;

    /// The larger of the two values.
    fn max_of(self, other: Self) -> Self;

    /// The smaller of the two values.
    fn min_of(self, other: Self) -> Self;

    /// Strict ordering test `self < other`.
    fn less(self, other: Self) -> bool;

    /// Ordering test `self <= other`.
    fn leq(self, other: Self) -> bool;

    /// Equality test on the scalar representation.
    fn same(self, other: Self) -> bool;

    /// Whether the value is finite (neither infinite nor undefined).
    fn finite(self) -> bool;

    /// The scalar representing a small signed integer.
    fn from_int(value: i64) -> Self;

    /// The scalar representing a count (an array length or index).
    fn from_count(value: usize) -> Self;

    /// The circle constant.
    fn pi() -> Self;
}

/// The scalar `numer / denom`, the way decimal literals are written here.
pub fn ratio<T: Real>(numer: i64, denom: i64) -> T {
    T::from_int(numer).over(T::from_int(denom))
}

} // verus!
