//! Time-parameterised quadratic obstacle trajectories with safety radii.

use vstd::prelude::*;
use crate::linalg::V3;
use crate::scalar::Real;
use crate::scalar::ratio;

verus! {

/// An obstacle moving on the quadratic trajectory
/// `pos(t) = a2 * t^2 + a1 * t + a0` with safety radius `d`.
/// Obstacles are immutable once configured; only the pose depends on time.
#[derive(Clone, Copy, Debug)]
pub struct ObstaclePoly<T> {
    pub a2: V3<T>,
    pub a1: V3<T>,
    pub a0: V3<T>,
    pub d: T,
}

impl<T: Real> ObstaclePoly<T> {
    /// Centre position at time `t`.
    pub fn pos(&self, t: T) -> V3<T> {
        self.a2.scale(t.times(t)).plus(self.a1.scale(t)).plus(self.a0)
    }

    /// Centre velocity at time `t`.
    pub fn vel(&self, t: T) -> V3<T> {
        self.a2.scale(T::from_int(2).times(t)).plus(self.a1)
    }

    /// Centre acceleration (constant).
    pub fn acc(&self) -> V3<T> {
        self.a2.scale(T::from_int(2))
    }
}

/// The six obstacles of the reference scenario: five static spheres and one
/// slowly drifting one.
pub fn paper_obstacles<T: Real>() -> (out: Vec<ObstaclePoly<T>>)
    ensures
        out@.len() == 6,
{
    let zero = V3::<T>::zero();
    let mut out: Vec<ObstaclePoly<T>> = Vec::new();
    out.push(ObstaclePoly {
        a2: zero,
        a1: zero,
        a0: V3 { x: T::from_int(47), y: T::from_int(86), z: T::from_int(10) },
        d: T::from_int(5),
    });
    out.push(ObstaclePoly {
        a2: zero,
        a1: zero,
        a0: V3 { x: T::from_int(52), y: T::from_int(78), z: T::from_int(9) },
        d: T::from_int(4),
    });
    out.push(ObstaclePoly {
        a2: zero,
        a1: zero,
        a0: V3 { x: T::from_int(43), y: T::from_int(82), z: ratio::<T>(615, 10) },
        d: T::from_int(5),
    });
    out.push(ObstaclePoly {
        a2: zero,
        a1: zero,
        a0: V3 { x: T::from_int(49), y: T::from_int(75), z: ratio::<T>(605, 10) },
        d: ratio::<T>(55, 10),
    });
    out.push(ObstaclePoly {
        a2: V3 { x: T::from_int(0), y: ratio::<T>(1, 1000), z: T::from_int(0) },
        a1: V3 { x: ratio::<T>(-6, 100), y: T::from_int(0), z: ratio::<T>(-89, 1000) },
        a0: V3 { x: T::from_int(95), y: T::from_int(15), z: T::from_int(100) },
        d: T::from_int(3),
    });
    out.push(ObstaclePoly {
        a2: zero,
        a1: zero,
        a0: V3 { x: T::from_int(69), y: T::from_int(83), z: ratio::<T>(1245, 10) },
        d: T::from_int(6),
    });
    out
}

} // verus!
