//! Small fixed-dimension vectors over the abstract scalar.

use vstd::prelude::*;
use crate::scalar::Real;

verus! {

/// A three-component vector.
#[derive(Clone, Copy, Debug)]
pub struct V3<T> {
    pub x: T,
    pub y: T,
    pub z: T,
}

/// A four-component vector (three controls plus a slack coordinate).
#[derive(Clone, Copy, Debug)]
pub struct V4<T> {
    pub x: T,
    pub y: T,
    pub z: T,
    pub w: T,
}

impl<T: Real> V3<T> {
    /// The vector whose components are the scalar for zero.
    pub fn zero() -> Self {
        V3 { x: T::from_int(0), y: T::from_int(0), z: T::from_int(0) }
    }

    /// Componentwise sum.
    pub fn plus(self, other: Self) -> Self {
        V3 { x: self.x.plus(other.x), y: self.y.plus(other.y), z: self.z.plus(other.z) }
    }

    /// Componentwise difference.
    pub fn minus(self, other: Self) -> Self {
        V3 { x: self.x.minus(other.x), y: self.y.minus(other.y), z: self.z.minus(other.z) }
    }

    /// Componentwise negation.
    pub fn neg(self) -> Self {
        V3 { x: self.x.neg(), y: self.y.neg(), z: self.z.neg() }
    }

    /// The vector scaled by `factor`.
    pub fn scale(self, factor: T) -> Self {
        V3 { x: self.x.times(factor), y: self.y.times(factor), z: self.z.times(factor) }
    }

    /// The vector divided componentwise by `divisor`.
    pub fn scale_div(self, divisor: T) -> Self {
        V3 { x: self.x.over(divisor), y: self.y.over(divisor), z: self.z.over(divisor) }
    }

    /// Inner product.
    pub fn dot(self, other: Self) -> T {
        self.x.times(other.x).plus(self.y.times(other.y)).plus(self.z.times(other.z))
    }

    /// Squared Euclidean norm.
    pub fn norm_squared(self) -> T {
        self.dot(self)
    }

    /// Euclidean norm.
    pub fn norm(self) -> T {
        self.norm_squared().sqrt()
    }

    /// The same point with the third component replaced.
    pub fn with_z(self, new_z: T) -> (r: Self)
        ensures
            r.x == self.x,
            r.y == self.y,
            r.z == new_z,
    {
        V3 { x: self.x, y: self.y, z: new_z }
    }
}

impl<T: Real> V4<T> {
    /// The vector whose components are the scalar for zero.
    pub fn zero() -> Self {
        V4 {
            x: T::from_int(0),
            y: T::from_int(0),
            z: T::from_int(0),
            w: T::from_int(0),
        }
    }

    /// Componentwise sum.
    pub fn plus(self, other: Self) -> Self {
        V4 {
            x: self.x.plus(other.x),
            y: self.y.plus(other.y),
            z: self.z.plus(other.z),
            w: self.w.plus(other.w),
        }
    }

    /// Componentwise difference.
    pub fn minus(self, other: Self) -> Self {
        V4 {
            x: self.x.minus(other.x),
            y: self.y.minus(other.y),
            z: self.z.minus(other.z),
            w: self.w.minus(other.w),
        }
    }

    /// The vector scaled by `factor`.
    pub fn scale(self, factor: T) -> Self {
        V4 {
            x: self.x.times(factor),
            y: self.y.times(factor),
            z: self.z.times(factor),
            w: self.w.times(factor),
        }
    }

    /// Inner product.
    pub fn dot(self, other: Self) -> T {
        self.x.times(other.x)
            .plus(self.y.times(other.y))
            .plus(self.z.times(other.z))
            .plus(self.w.times(other.w))
    }

    /// The first three components.
    pub fn xyz(self) -> (r: V3<T>)
        ensures
            r.x == self.x,
            r.y == self.y,
            r.z == self.z,
    {
        V3 { x: self.x, y: self.y, z: self.z }
    }
}

/// A vector holding `n` copies of one plain value.
pub(crate) fn filled_vec<A: Copy>(value: A, n: usize) -> (r: Vec<A>)
    ensures
        r@.len() == n,
        forall|i: int| 0 <= i < n ==> r@[i] == value,
{
    let mut r: Vec<A> = Vec::new();
    for i in 0..n
        invariant
            r@.len() == i,
            forall|k: int| 0 <= k < i ==> r@[k] == value,
    {
        r.push(value);
    }
    r
}

/// An elementwise copy of a vector of plain copyable values.
pub(crate) fn copy_vec<A: Copy>(v: &Vec<A>) -> (r: Vec<A>)
    ensures
        r@ == v@,
{
    let n = v.len();
    let mut r: Vec<A> = Vec::new();
    for i in 0..n
        invariant
            r@.len() == i,
            forall|k: int| 0 <= k < i ==> r@[k] == v@[k],
    {
        r.push(v[i]);
    }
    proof {
        assert(r@ =~= v@);
    }
    r
}

} // verus!
