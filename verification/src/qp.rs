//! Dykstra-style cyclic projection onto a box intersected with half-spaces,
//! in three dimensions or in four (three controls plus a slack coordinate).
//!
//! The iteration keeps one correction vector per convex set; each round
//! projects onto the box, then onto every half-space in order.  The
//! iteration count is a cost knob supplied by the caller; no convergence
//! test is performed.

use vstd::prelude::*;
use crate::linalg::V3;
use crate::linalg::V4;
use crate::scalar::Real;
use crate::scalar::ratio;

verus! {

/// A half-space constraint `a . x >= b` in three dimensions.
#[derive(Clone, Copy, Debug)]
pub struct Halfspace3<T> {
    pub a: V3<T>,
    pub b: T,
}

/// A half-space constraint `a . x >= b` in four dimensions.
#[derive(Clone, Copy, Debug)]
pub struct Halfspace4<T> {
    pub a: V4<T>,
    pub b: T,
}

/// Componentwise clamp of `v` to the box `[low, high]`.
fn clamp_vec3<T: Real>(v: V3<T>, low: V3<T>, high: V3<T>) -> V3<T> {
    V3 {
        x: v.x.max_of(low.x).min_of(high.x),
        y: v.y.max_of(low.y).min_of(high.y),
        z: v.z.max_of(low.z).min_of(high.z),
    }
}

/// Componentwise clamp of `v` to the box `[low, high]`.
fn clamp_vec4<T: Real>(v: V4<T>, low: V4<T>, high: V4<T>) -> V4<T> {
    V4 {
        x: v.x.max_of(low.x).min_of(high.x),
        y: v.y.max_of(low.y).min_of(high.y),
        z: v.z.max_of(low.z).min_of(high.z),
        w: v.w.max_of(low.w).min_of(high.w),
    }
}

/// Metric projection of `y` onto the half-space `a . x >= b`.  A degenerate
/// normal (squared norm at most the guard) passes `y` through unchanged, as
/// does a point already inside.
fn project_halfspace3<T: Real>(y: V3<T>, a: V3<T>, b: T) -> V3<T> {
    let aa = a.dot(a);
    if aa.leq(ratio::<T>(1, 1000000000000)) {
        return y;
    }
    let ay = a.dot(y);
    if b.leq(ay) {
        y
    } else {
        y.plus(a.scale(b.minus(ay).over(aa)))
    }
}

/// Metric projection of `y` onto the half-space `a . x >= b`, in four
/// dimensions; degenerate normals pass through.
fn project_halfspace4<T: Real>(y: V4<T>, a: V4<T>, b: T) -> V4<T> {
    let aa = a.dot(a);
    if aa.leq(ratio::<T>(1, 1000000000000)) {
        return y;
    }
    let ay = a.dot(y);
    if b.leq(ay) {
        y
    } else {
        y.plus(a.scale(b.minus(ay).over(aa)))
    }
}

/// Dykstra projection of `x_nom` onto the box `[box_min, box_max]`
/// intersected with the given half-spaces, running `iters` rounds (at least
/// one).  Corrections are kept per constraint for the whole call.
pub fn project_qp3<T: Real>(
    x_nom: V3<T>,
    box_min: V3<T>,
    box_max: V3<T>,
    constraints: &Vec<Halfspace3<T>>,
    iters: usize,
) -> V3<T> {
    let mut x = x_nom;
    let m = constraints.len();
    let mut corr: Vec<V3<T>> = Vec::new();
    corr.push(V3::zero());
    for _slot in 0..m
        invariant
            corr@.len() == _slot + 1,
    {
        corr.push(V3::zero());
    }
    let rounds = if iters < 1 {
        1
    } else {
        iters
    };
    for _round in 0..rounds
        invariant
            corr@.len() == m + 1,
    {
        let y = x.plus(corr[0]);
        let x_new = clamp_vec3(y, box_min, box_max);
        corr[0] = y.minus(x_new);
        x = x_new;

        for idx in 0..m
            invariant
                corr@.len() == m + 1,
        {
            let slot = idx + 1;
            let c = &constraints[idx];
            let y = x.plus(corr[slot]);
            let x_new = project_halfspace3(y, c.a, c.b);
            corr[slot] = y.minus(x_new);
            x = x_new;
        }
    }
    x
}

/// Dykstra projection in four dimensions, used with a slack coordinate for
/// soft feasibility.
pub fn project_qp4<T: Real>(
    x_nom: V4<T>,
    box_min: V4<T>,
    box_max: V4<T>,
    constraints: &Vec<Halfspace4<T>>,
    iters: usize,
) -> V4<T> {
    let mut x = x_nom;
    let m = constraints.len();
    let mut corr: Vec<V4<T>> = Vec::new();
    corr.push(V4::zero());
    for _slot in 0..m
        invariant
            corr@.len() == _slot + 1,
    {
        corr.push(V4::zero());
    }
    let rounds = if iters < 1 {
        1
    } else {
        iters
    };
    for _round in 0..rounds
        invariant
            corr@.len() == m + 1,
    {
        let y = x.plus(corr[0]);
        let x_new = clamp_vec4(y, box_min, box_max);
        corr[0] = y.minus(x_new);
        x = x_new;

        for idx in 0..m
            invariant
                corr@.len() == m + 1,
        {
            let slot = idx + 1;
            let c = &constraints[idx];
            let y = x.plus(corr[slot]);
            let x_new = project_halfspace4(y, c.a, c.b);
            corr[slot] = y.minus(x_new);
            x = x_new;
        }
    }
    x
}

} // verus!
