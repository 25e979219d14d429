//! Classical cohesion / alignment / separation flocking (stateless).

use vstd::prelude::*;
use crate::linalg::V3;
use crate::model::ParticleModel;
use crate::scalar::Real;
use crate::scalar::ratio;

verus! {

/// Configuration of the classical flocking law.
#[derive(Clone, Copy, Debug)]
pub struct FlockParams<T> {
    /// Radius within which neighbours contribute cohesion and alignment.
    pub neighbor_radius: T,
    /// Radius within which neighbours contribute unit repulsion.
    pub separation_radius: T,
    pub cohesion_weight: T,
    pub alignment_weight: T,
    pub separation_weight: T,
    /// Soft spherical boundary centred at the origin.
    pub boundary_radius: T,
    pub boundary_weight: T,
    /// Speed above which damping kicks in.
    pub max_speed: T,
    /// Cap on the magnitude of the emitted force.
    pub max_force: T,
    /// Weight of the speed-damping term.
    pub speed_limit: T,
}

impl<T: Real> FlockParams<T> {
    /// The stock parameter set.
    pub fn defaults() -> Self {
        FlockParams {
            neighbor_radius: ratio::<T>(26, 10),
            separation_radius: ratio::<T>(9, 10),
            cohesion_weight: ratio::<T>(45, 100),
            alignment_weight: ratio::<T>(65, 100),
            separation_weight: ratio::<T>(1035, 100),
            boundary_radius: T::from_int(6),
            boundary_weight: ratio::<T>(8, 10),
            max_speed: ratio::<T>(24, 10),
            max_force: ratio::<T>(16, 10),
            speed_limit: T::from_int(2),
        }
    }
}

/// The classical flocking control law.  It holds no per-agent state.
#[derive(Clone, Copy, Debug)]
pub struct Flocking<T> {
    pub params: FlockParams<T>,
}

impl<T: Real> Flocking<T> {
    /// A law with the given parameters.
    pub fn new(params: FlockParams<T>) -> (r: Self)
        ensures
            r.params == params,
    {
        Flocking { params }
    }

    /// Compute one force command per agent from the current kinematics and
    /// latch all of them.  Kinematics, masses, drags, groups, the clock and
    /// the trajectories are untouched; only the force array changes, and it
    /// keeps one entry per agent.  With no agents the call is a no-op; in
    /// the plane every emitted force has a zeroed third component.
    pub fn apply(&self, model: &mut ParticleModel<T>, plane_2d: bool)
        requires
            old(model)@.wf(),
        ensures
            final(model)@.wf(),
            final(model)@ == old(model)@.with_forces(final(model)@.forces),
            final(model)@.forces.len() == old(model)@.forces.len(),
            old(model)@.n() == 0 ==> final(model)@ == old(model)@,
            plane_2d ==> forall|i: int|
                0 <= i < old(model)@.n() ==> final(model)@.forces[i].z == old(model)@.zero,
    {
        let (positions, velocities) = model.working_kinematics(plane_2d);
        let n = positions.len();
        if n == 0 {
            return ;
        }
        let z0 = model.zero_scalar();

        let neighbor_r2 = self.params.neighbor_radius.times(self.params.neighbor_radius);
        let separation_r2 = self.params.separation_radius.times(self.params.separation_radius);
        let tiny = ratio::<T>(1, 1000000000000);
        let one = T::from_int(1);
        let mut forces: Vec<V3<T>> = Vec::new();

        for i in 0..n
            invariant
                positions@.len() == n,
                velocities@.len() == n,
                forces@.len() == i,
                plane_2d ==> forall|k: int| 0 <= k < i ==> forces@[k].z == z0,
        {
            let pos_i = positions[i];
            let vel_i = velocities[i];
            let mut cohesion_sum = V3::<T>::zero();
            let mut alignment_sum = V3::<T>::zero();
            let mut separation_sum = V3::<T>::zero();
            let mut neighbors: usize = 0;
            let mut close: usize = 0;

            for j in 0..n
                invariant
                    positions@.len() == n,
                    velocities@.len() == n,
                    neighbors <= j,
                    close <= j,
            {
                if j != i {
                    let diff = pos_i.minus(positions[j]);
                    let dist2 = diff.norm_squared();
                    if dist2.less(neighbor_r2) {
                        cohesion_sum = cohesion_sum.plus(positions[j]);
                        alignment_sum = alignment_sum.plus(velocities[j]);
                        neighbors = neighbors + 1;
                    }
                    if dist2.less(separation_r2) && tiny.less(dist2) {
                        let dist = dist2.sqrt();
                        separation_sum = separation_sum.plus(diff.scale_div(dist));
                        close = close + 1;
                    }
                }
            }

            let mut force = V3::<T>::zero();

            if neighbors > 0 {
                let inv = one.over(T::from_count(neighbors));
                let avg_pos = cohesion_sum.scale(inv);
                let avg_vel = alignment_sum.scale(inv);
                force = force.plus(avg_pos.minus(pos_i).scale(self.params.cohesion_weight));
                force = force.plus(avg_vel.minus(vel_i).scale(self.params.alignment_weight));
            }

            if close > 0 {
                let inv = one.over(T::from_count(close));
                force = force.plus(separation_sum.scale(inv).scale(self.params.separation_weight));
            }

            let dist = pos_i.norm();
            if self.params.boundary_radius.less(dist) && T::from_int(0).less(dist) {
                let dir = pos_i.scale_div(dist);
                force = force.plus(
                    dir.neg().scale(dist.minus(self.params.boundary_radius)).scale(
                        self.params.boundary_weight,
                    ),
                );
            }

            let speed = vel_i.norm();
            if self.params.max_speed.less(speed) && T::from_int(0).less(speed) {
                let dir = vel_i.scale_div(speed);
                force = force.plus(
                    dir.neg().scale(speed.minus(self.params.max_speed)).scale(
                        self.params.speed_limit,
                    ),
                );
            }

            let fmag = force.norm();
            if self.params.max_force.less(fmag) && T::from_int(0).less(fmag) {
                force = force.scale_div(fmag).scale(self.params.max_force);
            }

            if plane_2d {
                forces.push(V3 { x: force.x, y: force.y, z: z0 });
            } else {
                forces.push(force);
            }
        }

        model.set_forces_all(&forces);
    }
}

} // verus!
