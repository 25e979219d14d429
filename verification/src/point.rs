//! A single material point with packed state `[x, y, z, vx, vy, vz]`,
//! advanced by one RK4 step at a time under an externally supplied force.

use vstd::prelude::*;
use crate::linalg::V3;
use crate::scalar::Real;
use crate::scalar::ratio;
use crate::sim::BodyConfig;
use crate::sim::TrajSample;

verus! {

/// One translational point mass with optional trajectory recording.
pub struct Point<T> {
    mass: T,
    drag_coefficient: T,
    pos: V3<T>,
    vel: V3<T>,
    time: T,
    trajectory_write: bool,
    trajectory: Vec<TrajSample<T>>,
}

impl<T: Real> Point<T> {
    /// Create a point from its mass, packed state `[x, y, z, vx, vy, vz]`,
    /// recording flag and linear-drag coefficient.  When recording is on,
    /// the initial state is recorded at once.
    pub fn new(mass: T, position: [T; 6], trajectory_write: bool, drag_coefficient: T) -> (p: Self)
        ensures
            p.mass_spec() == mass,
            p.drag_spec() == drag_coefficient,
            p.recording() == trajectory_write,
            p.position() == (V3 { x: position@[0], y: position@[1], z: position@[2] }),
            p.velocity() == (V3 { x: position@[3], y: position@[4], z: position@[5] }),
            trajectory_write ==> p.traj()@.len() == 1 && p.traj()@[0] == (TrajSample {
                position: p.position(),
                velocity: p.velocity(),
                time: p.time_spec(),
            }),
            !trajectory_write ==> p.traj()@.len() == 0,
    {
        let pos = V3 { x: position[0], y: position[1], z: position[2] };
        let vel = V3 { x: position[3], y: position[4], z: position[5] };
        let time = T::from_int(0);
        let mut trajectory: Vec<TrajSample<T>> = Vec::new();
        if trajectory_write {
            trajectory.push(TrajSample { position: pos, velocity: vel, time });
        }
        Point { mass, drag_coefficient, pos, vel, time, trajectory_write, trajectory }
    }

    /// Current position.
    pub closed spec fn position(self) -> V3<T> {
        self.pos
    }

    /// Current velocity.
    pub closed spec fn velocity(self) -> V3<T> {
        self.vel
    }

    /// Current model time, as a specification value.
    pub closed spec fn time_spec(self) -> T {
        self.time
    }

    /// The point's mass.
    pub closed spec fn mass_spec(self) -> T {
        self.mass
    }

    /// The point's drag coefficient.
    pub closed spec fn drag_spec(self) -> T {
        self.drag_coefficient
    }

    /// The recorded trajectory, as a specification value.
    pub closed spec fn traj(self) -> Vec<TrajSample<T>> {
        self.trajectory
    }

    /// Whether this point records its trajectory.
    pub closed spec fn recording(self) -> bool {
        self.trajectory_write
    }

    /// One RK4 step under the constant external force `force` and step size
    /// `dt`.  The total force is the external force plus linear drag at the
    /// pre-step velocity, so the acceleration is constant within the step.
    /// Mass, drag and the recording flag are unchanged; when recording is
    /// on, exactly one post-step sample is appended.
    pub fn step(&mut self, force: V3<T>, dt: T)
        ensures
            final(self).mass_spec() == old(self).mass_spec(),
            final(self).drag_spec() == old(self).drag_spec(),
            final(self).recording() == old(self).recording(),
            old(self).recording() ==> final(self).traj()@ == old(self).traj()@.push(
                TrajSample {
                    position: final(self).position(),
                    velocity: final(self).velocity(),
                    time: final(self).time_spec(),
                },
            ),
            !old(self).recording() ==> final(self).traj()@ == old(self).traj()@,
    {
        let drag_force = self.vel.scale(self.drag_coefficient).neg();
        let total_force = force.plus(drag_force);
        let acc = total_force.scale_div(self.mass);

        // The state derivative is [vx, vy, vz, ax, ay, az] with a constant
        // acceleration, so only the velocity rows need the staging.
        let half = ratio::<T>(1, 2);
        let k1x = self.vel;
        let k2x = self.vel.plus(acc.scale(half.times(dt)));
        let k3x = self.vel.plus(acc.scale(half.times(dt)));
        let k4x = self.vel.plus(acc.scale(dt));

        let two = T::from_int(2);
        let six = T::from_int(6);
        let dx = k1x.plus(k2x.scale(two)).plus(k3x.scale(two)).plus(k4x).scale(dt).scale_div(six);
        let dv = acc.plus(acc.scale(two)).plus(acc.scale(two)).plus(acc).scale(dt).scale_div(six);

        self.pos = self.pos.plus(dx);
        self.vel = self.vel.plus(dv);
        self.time = self.time.plus(dt);

        if self.trajectory_write {
            self.trajectory.push(
                TrajSample { position: self.pos, velocity: self.vel, time: self.time },
            );
        }
    }

    /// The recorded trajectory so far.
    pub fn trajectory(&self) -> (t: &Vec<TrajSample<T>>)
        ensures
            t@ == self.traj()@,
    {
        &self.trajectory
    }

    /// Current model time.
    pub fn time(&self) -> (t: T)
        ensures
            t == self.time_spec(),
    {
        self.time
    }

    /// The packed state `[x, y, z, vx, vy, vz]`.
    pub fn state_array(&self) -> (s: [T; 6])
        ensures
            s@[0] == self.position().x,
            s@[1] == self.position().y,
            s@[2] == self.position().z,
            s@[3] == self.velocity().x,
            s@[4] == self.velocity().y,
            s@[5] == self.velocity().z,
    {
        [self.pos.x, self.pos.y, self.pos.z, self.vel.x, self.vel.y, self.vel.z]
    }

    /// The point's mass.
    pub fn mass(&self) -> (m: T)
        ensures
            m == self.mass_spec(),
    {
        self.mass
    }

    /// The point's drag coefficient.
    pub fn drag_coefficient(&self) -> (d: T)
        ensures
            d == self.drag_spec(),
    {
        self.drag_coefficient
    }

    /// Whether the point records its trajectory.
    pub fn trajectory_write(&self) -> (w: bool)
        ensures
            w == self.recording(),
    {
        self.trajectory_write
    }

    /// The point as a body configuration with the given group tag.
    pub fn to_body_config(&self, group: usize) -> (c: BodyConfig<T>)
        ensures
            c.mass == self.mass_spec(),
            c.drag_coefficient == self.drag_spec(),
            c.trajectory_write == self.recording(),
            c.group == group,
            c.state@[0] == self.position().x,
            c.state@[1] == self.position().y,
            c.state@[2] == self.position().z,
            c.state@[3] == self.velocity().x,
            c.state@[4] == self.velocity().y,
            c.state@[5] == self.velocity().z,
    {
        BodyConfig {
            mass: self.mass,
            state: self.state_array(),
            drag_coefficient: self.drag_coefficient,
            trajectory_write: self.trajectory_write,
            group,
        }
    }
}

} // verus!
