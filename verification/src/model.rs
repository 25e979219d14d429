//! N-body particle model backed by the shared [`Simulator`], plus the
//! conversion from packed state arrays and the built-in demo scenes.

use vstd::prelude::*;
use crate::error::SimError;
use crate::linalg::V3;
use crate::scalar::Real;
use crate::scalar::ratio;
use crate::sim::BodyConfig;
use crate::sim::SimView;
use crate::sim::Simulator;
use crate::sim::TrajSample;

verus! {

/// Number of bodies in the built-in ring demo.
pub const DEMO_COUNT: usize = 20;

/// Step size of the built-in demo scenes.
pub fn demo_dt<T: Real>() -> T {
    ratio::<T>(1, 60)
}

/// Drag coefficient of the built-in ring demo.
pub fn demo_drag<T: Real>() -> T {
    ratio::<T>(8, 100)
}

/// Simple N-body particle model backed by the shared [`Simulator`].
#[derive(Debug)]
pub struct ParticleModel<T> {
    sim: Simulator<T>,
}

impl<T> View for ParticleModel<T> {
    type V = SimView<T>;

    closed spec fn view(&self) -> SimView<T> {
        self.sim@
    }
}

impl<T: Real> ParticleModel<T> {
    /// Build a model from per-body configurations and a step size.
    pub fn new(configs: &Vec<BodyConfig<T>>, dt: T) -> (m: Self)
        ensures
            m@.wf(),
            m@.n() == configs@.len(),
            m@.dt == dt,
            m@.time == m@.zero,
            forall|i: int|
                0 <= i < configs@.len() ==> m@.x[i] == (V3 {
                    x: configs@[i].state@[0],
                    y: configs@[i].state@[1],
                    z: configs@[i].state@[2],
                }),
            forall|i: int|
                0 <= i < configs@.len() ==> m@.v[i] == (V3 {
                    x: configs@[i].state@[3],
                    y: configs@[i].state@[4],
                    z: configs@[i].state@[5],
                }),
            forall|i: int| 0 <= i < configs@.len() ==> m@.mass[i] == configs@[i].mass,
            forall|i: int| 0 <= i < configs@.len() ==> m@.drag[i] == configs@[i].drag_coefficient,
            forall|i: int| 0 <= i < configs@.len() ==> m@.groups[i] == configs@[i].group,
            forall|i: int|
                0 <= i < configs@.len() ==> m@.forces[i] == (V3 {
                    x: m@.zero,
                    y: m@.zero,
                    z: m@.zero,
                }),
            forall|i: int|
                0 <= i < configs@.len() ==> (m@.traj[i] is Some) == configs@[i].trajectory_write,
    {
        ParticleModel { sim: Simulator::new(configs, dt) }
    }

    /// Build a model from a packed state vector; rejects a vector whose
    /// length is not a multiple of six.
    pub fn from_states(states: &Vec<T>, dt: T, drag_coefficient: T) -> (r: Result<Self, SimError>)
        ensures
            (r is Err) == (states@.len() % 6 != 0),
            r is Err ==> r->Err_0 == SimError::BadShape,
            r is Ok ==> {
                &&& r->Ok_0@.wf()
                &&& r->Ok_0@.n() == states@.len() / 6
                &&& r->Ok_0@.dt == dt
                &&& r->Ok_0@.time == r->Ok_0@.zero
                &&& forall|i: int|
                    0 <= i < r->Ok_0@.n() ==> r->Ok_0@.x[i] == (V3 {
                        x: states@[6 * i],
                        y: states@[6 * i + 1],
                        z: states@[6 * i + 2],
                    })
                &&& forall|i: int|
                    0 <= i < r->Ok_0@.n() ==> r->Ok_0@.v[i] == (V3 {
                        x: states@[6 * i + 3],
                        y: states@[6 * i + 4],
                        z: states@[6 * i + 5],
                    })
                &&& forall|i: int|
                    0 <= i < r->Ok_0@.n() ==> r->Ok_0@.drag[i] == drag_coefficient
                &&& forall|i: int| 0 <= i < r->Ok_0@.n() ==> r->Ok_0@.groups[i] == 0
                &&& forall|i: int| 0 <= i < r->Ok_0@.n() ==> r->Ok_0@.traj[i] is None
            },
    {
        let configs = configs_from_states(states, drag_coefficient)?;
        let m = ParticleModel::new(&configs, dt);
        proof {
            assert forall|i: int| 0 <= i < m@.n() implies m@.traj[i] is None by {
                assert(configs@[i].trajectory_write == false);
                assert((m@.traj[i] is Some) == configs@[i].trajectory_write);
            }
        }
        Ok(m)
    }

    /// Number of bodies.
    pub fn len(&self) -> (n: usize)
        ensures
            n == self@.n(),
    {
        self.sim.len()
    }

    /// Current step size.
    pub fn dt(&self) -> (dt: T)
        ensures
            dt == self@.dt,
    {
        self.sim.dt()
    }

    /// Current model time.
    pub fn time(&self) -> (t: T)
        ensures
            t == self@.time,
    {
        self.sim.time()
    }

    /// The model's fixed scalar for zero, written by plane flattening.
    pub fn zero_scalar(&self) -> (z: T)
        ensures
            z == self@.zero,
    {
        self.sim.zero_scalar()
    }

    /// Working copies of the positions and velocities, with every third
    /// component zeroed when the simulation runs in the plane.
    pub(crate) fn working_kinematics(&self, plane_2d: bool) -> (r: (Vec<V3<T>>, Vec<V3<T>>))
        requires
            self@.wf(),
        ensures
            r.0@.len() == self@.n(),
            r.1@.len() == self@.n(),
    {
        let n = self.sim.len();
        let z0 = self.sim.zero_scalar();
        let mut positions: Vec<V3<T>> = Vec::new();
        let mut velocities: Vec<V3<T>> = Vec::new();
        for i in 0..n
            invariant
                positions@.len() == i,
                velocities@.len() == i,
        {
            let p = self.sim.positions()[i];
            let v = self.sim.velocities()[i];
            if plane_2d {
                positions.push(p.with_z(z0));
                velocities.push(v.with_z(z0));
            } else {
                positions.push(p);
                velocities.push(v);
            }
        }
        (positions, velocities)
    }

    /// Latch one force per body from a full force vector.
    pub fn set_forces_all(&mut self, forces: &Vec<V3<T>>)
        requires
            old(self)@.wf(),
            forces@.len() == old(self)@.n(),
        ensures
            final(self)@ == old(self)@.with_forces(forces@),
    {
        let n = self.sim.len();
        for i in 0..n
            invariant
                self@.wf(),
                self@.n() == n,
                forces@.len() == n,
                self@ == old(self)@.with_forces(self@.forces),
                self@.forces.len() == n,
                forall|k: int| 0 <= k < i ==> self@.forces[k] == forces@[k],
                forall|k: int| i <= k < n ==> self@.forces[k] == old(self)@.forces[k],
        {
            self.sim.set_force(i, forces[i]);
        }
        proof {
            assert(self@.forces =~= forces@);
        }
    }

    /// Replace the step size; nothing else changes.
    pub fn set_dt(&mut self, dt: T)
        ensures
            final(self)@ == old(self)@.with_dt(dt),
    {
        self.sim.set_dt(dt);
    }

    /// Current positions.
    pub fn positions(&self) -> (p: &Vec<V3<T>>)
        ensures
            p@ == self@.x,
    {
        self.sim.positions()
    }

    /// Current velocities.
    pub fn velocities(&self) -> (v: &Vec<V3<T>>)
        ensures
            v@ == self@.v,
    {
        self.sim.velocities()
    }

    /// Per-body masses.
    pub fn masses(&self) -> (m: &Vec<T>)
        ensures
            m@ == self@.mass,
    {
        self.sim.masses()
    }

    /// Per-body drag coefficients.
    pub fn drags(&self) -> (d: &Vec<T>)
        ensures
            d@ == self@.drag,
    {
        self.sim.drags()
    }

    /// Per-body group tags.
    pub fn groups(&self) -> (g: &Vec<usize>)
        ensures
            g@ == self@.groups,
    {
        self.sim.groups()
    }

    /// Overwrite body `i`'s position.
    pub fn set_position(&mut self, i: usize, pos: V3<T>)
        requires
            old(self)@.wf(),
            i < old(self)@.n(),
        ensures
            final(self)@ == old(self)@.with_kinematics(
                old(self)@.x.update(i as int, pos),
                old(self)@.v,
            ),
    {
        self.sim.set_position(i, pos);
    }

    /// Overwrite body `i`'s velocity.
    pub fn set_velocity(&mut self, i: usize, vel: V3<T>)
        requires
            old(self)@.wf(),
            i < old(self)@.n(),
        ensures
            final(self)@ == old(self)@.with_kinematics(
                old(self)@.x,
                old(self)@.v.update(i as int, vel),
            ),
    {
        self.sim.set_velocity(i, vel);
    }

    /// Latch an external force on body `i`.
    pub fn set_force(&mut self, i: usize, f: V3<T>)
        requires
            old(self)@.wf(),
            i < old(self)@.n(),
        ensures
            final(self)@ == old(self)@.with_forces(old(self)@.forces.update(i as int, f)),
    {
        self.sim.set_force(i, f);
    }

    /// Latch the same force on every body.
    pub fn set_uniform_force(&mut self, f: V3<T>)
        requires
            old(self)@.wf(),
        ensures
            final(self)@ == old(self)@.with_forces(final(self)@.forces),
            final(self)@.forces.len() == old(self)@.forces.len(),
            forall|i: int| 0 <= i < old(self)@.n() ==> final(self)@.forces[i] == f,
    {
        let n = self.sim.len();
        for i in 0..n
            invariant
                self@.wf(),
                self@.n() == n,
                self@ == old(self)@.with_forces(self@.forces),
                self@.forces.len() == old(self)@.forces.len(),
                forall|k: int| 0 <= k < i ==> self@.forces[k] == f,
        {
            self.sim.set_force(i, f);
        }
    }

    /// Latch `f` on every body in the given group.
    pub fn set_group_force(&mut self, group: usize, f: V3<T>)
        requires
            old(self)@.wf(),
        ensures
            final(self)@ == old(self)@.with_forces(final(self)@.forces),
            final(self)@.forces.len() == old(self)@.forces.len(),
            forall|i: int|
                0 <= i < old(self)@.n() ==> final(self)@.forces[i] == (if old(self)@.groups[i]
                    == group {
                    f
                } else {
                    old(self)@.forces[i]
                }),
    {
        self.sim.set_group_force(group, f);
    }

    /// One RK4 step under the latched forces (see [`Simulator::step`]).
    pub fn step(&mut self)
        requires
            old(self)@.wf(),
        ensures
            final(self)@.wf(),
            final(self)@ == old(self)@.with_step(
                final(self)@.x,
                final(self)@.v,
                final(self)@.time,
                final(self)@.traj,
            ),
            final(self)@.n() == old(self)@.n(),
            final(self)@.v.len() == old(self)@.v.len(),
            final(self)@.forces == old(self)@.forces,
            old(self)@.n() == 0 ==> final(self)@ == old(self)@,
            final(self)@.traj.len() == old(self)@.traj.len(),
            forall|i: int|
                0 <= i < old(self)@.n() ==> {
                    &&& (final(self)@.traj[i] is Some) == (old(self)@.traj[i] is Some)
                    &&& (old(self)@.traj[i] is None ==> final(self)@.traj[i] == old(self)@.traj[i])
                    &&& (old(self)@.traj[i] is Some ==> final(self)@.traj[i]->0@ == old(
                        self,
                    )@.traj[i]->0@.push(
                        TrajSample {
                            position: final(self)@.x[i],
                            velocity: final(self)@.v[i],
                            time: final(self)@.time,
                        },
                    ))
                },
    {
        self.sim.step();
    }

    /// The packed `N x 6` state matrix.
    pub fn state_matrix(&self) -> (out: Vec<[T; 6]>)
        requires
            self@.wf(),
        ensures
            out@.len() == self@.n(),
            forall|i: int|
                #![trigger out@[i]]
                0 <= i < self@.n() ==> {
                    &&& out@[i]@[0] == self@.x[i].x
                    &&& out@[i]@[1] == self@.x[i].y
                    &&& out@[i]@[2] == self@.x[i].z
                    &&& out@[i]@[3] == self@.v[i].x
                    &&& out@[i]@[4] == self@.v[i].y
                    &&& out@[i]@[5] == self@.v[i].z
                },
    {
        self.sim.state_matrix()
    }

    /// Zero the third component of every position and velocity and align
    /// each recording body's newest trajectory sample with the flattened
    /// state (see [`Simulator::flatten_to_plane`]).
    pub fn flatten_to_plane(&mut self)
        requires
            old(self)@.wf(),
        ensures
            final(self)@.wf(),
            final(self)@ == old(self)@.with_step(
                final(self)@.x,
                final(self)@.v,
                old(self)@.time,
                final(self)@.traj,
            ),
            final(self)@.x.len() == old(self)@.x.len(),
            final(self)@.v.len() == old(self)@.v.len(),
            forall|i: int|
                0 <= i < old(self)@.n() ==> {
                    &&& final(self)@.x[i].x == old(self)@.x[i].x
                    &&& final(self)@.x[i].y == old(self)@.x[i].y
                    &&& final(self)@.x[i].z == old(self)@.zero
                    &&& final(self)@.v[i].x == old(self)@.v[i].x
                    &&& final(self)@.v[i].y == old(self)@.v[i].y
                    &&& final(self)@.v[i].z == old(self)@.zero
                },
            final(self)@.traj.len() == old(self)@.traj.len(),
            forall|i: int|
                0 <= i < old(self)@.n() ==> {
                    &&& (final(self)@.traj[i] is Some) == (old(self)@.traj[i] is Some)
                    &&& (old(self)@.traj[i] is None ==> final(self)@.traj[i] == old(self)@.traj[i])
                    &&& (old(self)@.traj[i] is Some ==> {
                        let before = old(self)@.traj[i]->0@;
                        let after = final(self)@.traj[i]->0@;
                        &&& after.len() == before.len()
                        &&& (before.len() > 0 ==> after[before.len() - 1] == (TrajSample {
                            position: final(self)@.x[i],
                            velocity: final(self)@.v[i],
                            time: before[before.len() - 1].time,
                        }))
                    })
                },
    {
        self.sim.flatten_to_plane();
    }
}

/// Convert a packed state vector `[x, y, z, vx, vy, vz]*` into body
/// configurations with unit mass, the given drag, no trajectory recording
/// and group `0`.  A vector whose length is not a multiple of six is
/// rejected with [`SimError::BadShape`].
pub fn configs_from_states<T: Real>(states: &Vec<T>, drag_coefficient: T) -> (r: Result<
    Vec<BodyConfig<T>>,
    SimError,
>)
    ensures
        (r is Err) == (states@.len() % 6 != 0),
        r is Err ==> r->Err_0 == SimError::BadShape,
        r is Ok ==> {
            &&& r->Ok_0@.len() == states@.len() / 6
            &&& forall|i: int|
                #![trigger r->Ok_0@[i]]
                0 <= i < r->Ok_0@.len() ==> {
                    &&& r->Ok_0@[i].state@[0] == states@[6 * i]
                    &&& r->Ok_0@[i].state@[1] == states@[6 * i + 1]
                    &&& r->Ok_0@[i].state@[2] == states@[6 * i + 2]
                    &&& r->Ok_0@[i].state@[3] == states@[6 * i + 3]
                    &&& r->Ok_0@[i].state@[4] == states@[6 * i + 4]
                    &&& r->Ok_0@[i].state@[5] == states@[6 * i + 5]
                    &&& r->Ok_0@[i].drag_coefficient == drag_coefficient
                    &&& r->Ok_0@[i].trajectory_write == false
                    &&& r->Ok_0@[i].group == 0
                }
        },
{
    if states.len() % 6 != 0 {
        return Err(SimError::BadShape);
    }
    let n = states.len() / 6;
    let one = T::from_int(1);
    let mut configs: Vec<BodyConfig<T>> = Vec::new();
    for i in 0..n
        invariant
            states@.len() % 6 == 0,
            n == states@.len() / 6,
            configs@.len() == i,
            forall|k: int|
                #![trigger configs@[k]]
                0 <= k < i ==> {
                    &&& configs@[k].state@[0] == states@[6 * k]
                    &&& configs@[k].state@[1] == states@[6 * k + 1]
                    &&& configs@[k].state@[2] == states@[6 * k + 2]
                    &&& configs@[k].state@[3] == states@[6 * k + 3]
                    &&& configs@[k].state@[4] == states@[6 * k + 4]
                    &&& configs@[k].state@[5] == states@[6 * k + 5]
                    &&& configs@[k].drag_coefficient == drag_coefficient
                    &&& configs@[k].trajectory_write == false
                    &&& configs@[k].group == 0
                },
    {
        let base = i * 6;
        assert(base + 5 < states@.len());
        configs.push(
            BodyConfig {
                mass: one,
                state: [
                    states[base],
                    states[base + 1],
                    states[base + 2],
                    states[base + 3],
                    states[base + 4],
                    states[base + 5],
                ],
                drag_coefficient,
                trajectory_write: false,
                group: 0,
            },
        );
    }
    Ok(configs)
}

/// The ring-with-wobble demo scene: `count` bodies on a noisy ring orbit
/// with slight vertical wobble, unit mass, demo drag, group `0`.
pub fn ring_demo_configs<T: Real>(count: usize) -> (out: Vec<BodyConfig<T>>)
    ensures
        out@.len() == count,
        forall|i: int|
            #![trigger out@[i]]
            0 <= i < count ==> {
                &&& out@[i].trajectory_write == false
                &&& out@[i].group == 0
            },
{
    let mut configs: Vec<BodyConfig<T>> = Vec::new();
    if count == 0 {
        return configs;
    }
    let one = T::from_int(1);
    let two = T::from_int(2);
    let count_f = T::from_count(count);
    let drag = demo_drag::<T>();
    for i in 0..count
        invariant
            configs@.len() == i,
            forall|k: int|
                #![trigger configs@[k]]
                0 <= k < i ==> {
                    &&& configs@[k].trajectory_write == false
                    &&& configs@[k].group == 0
                },
    {
        let i_f = T::from_count(i);
        let angle = i_f.over(count_f).times(two).times(T::pi());
        let wobble = ratio::<T>(6, 10).plus(ratio::<T>(4, 10).times(i_f.times(ratio::<T>(7, 10)).sin()));
        let r = ratio::<T>(145, 10).times(wobble);
        let x = r.times(angle.cos());
        let y = r.times(angle.sin());
        let z = T::from_count(i % 8).times(ratio::<T>(35, 100)).minus(ratio::<T>(1225, 1000));
        let tangent = V3 { x: y.neg(), y: x, z: T::from_int(0) };
        let tangent = if ratio::<T>(1, 1000000000000).less(tangent.norm_squared()) {
            tangent.scale_div(tangent.norm())
        } else {
            V3 { x: one, y: T::from_int(0), z: T::from_int(0) }
        };
        let speed = one.plus(ratio::<T>(4, 10).times(i_f.times(ratio::<T>(13, 10)).sin()));
        let vz = ratio::<T>(3, 10).times(i_f.times(ratio::<T>(9, 10)).cos());
        let vel = tangent.scale(speed).plus(V3 { x: T::from_int(0), y: T::from_int(0), z: vz });

        configs.push(
            BodyConfig {
                mass: one,
                state: [x, y, z, vel.x, vel.y, vel.z],
                drag_coefficient: drag,
                trajectory_write: false,
                group: 0,
            },
        );
    }
    configs
}

/// The compact lattice demo scene: a `side x side x side` grid of bodies at
/// rest, centred on the origin.
pub fn lattice_demo_configs<T: Real>(side: usize) -> (out: Vec<BodyConfig<T>>)
    requires
        side < 1000,
    ensures
        out@.len() == side * side * side,
        forall|i: int|
            #![trigger out@[i]]
            0 <= i < out@.len() ==> {
                &&& out@[i].trajectory_write == false
                &&& out@[i].group == 0
            },
{
    let mut configs: Vec<BodyConfig<T>> = Vec::new();
    if side == 0 {
        return configs;
    }
    let one = T::from_int(1);
    let zero = T::from_int(0);
    let spacing = ratio::<T>(14, 10);
    let origin = T::from_count(side).minus(one).times(spacing).times(ratio::<T>(1, 2));
    let drag = ratio::<T>(2, 100);
    for ix in 0..side
        invariant
            configs@.len() == ix * side * side,
            side < 1000,
            forall|k: int|
                #![trigger configs@[k]]
                0 <= k < configs@.len() ==> {
                    &&& configs@[k].trajectory_write == false
                    &&& configs@[k].group == 0
                },
    {
        proof {
            assert(ix * side * side + 0 * side == ix * side * side) by (nonlinear_arith);
        }
        for iy in 0..side
            invariant
                configs@.len() == ix * side * side + iy * side,
                side < 1000,
                forall|k: int|
                    #![trigger configs@[k]]
                    0 <= k < configs@.len() ==> {
                        &&& configs@[k].trajectory_write == false
                        &&& configs@[k].group == 0
                    },
        {
            for iz in 0..side
                invariant
                    configs@.len() == ix * side * side + iy * side + iz,
                    side < 1000,
                    forall|k: int|
                        #![trigger configs@[k]]
                        0 <= k < configs@.len() ==> {
                            &&& configs@[k].trajectory_write == false
                            &&& configs@[k].group == 0
                        },
            {
                let x = T::from_count(ix).times(spacing).minus(origin);
                let y = T::from_count(iy).times(spacing).minus(origin);
                let z = T::from_count(iz).times(spacing).minus(origin);
                configs.push(
                    BodyConfig {
                        mass: one,
                        state: [x, y, z, zero, zero, zero],
                        drag_coefficient: drag,
                        trajectory_write: false,
                        group: 0,
                    },
                );
            }
            proof {
                assert(ix * side * side + (iy + 1) * side == ix * side * side + iy * side + side)
                    by (nonlinear_arith);
            }
        }
        proof {
            assert((ix + 1) * side * side == ix * side * side + side * side) by (nonlinear_arith);
        }
    }
    configs
}

/// The four-agent quadrotor formation demo: one body at each default
/// formation offset, at rest, unit mass, no drag.
pub fn quadrotor_demo_configs<T: Real>() -> (out: Vec<BodyConfig<T>>)
    ensures
        out@.len() == 4,
        forall|i: int|
            #![trigger out@[i]]
            0 <= i < out@.len() ==> {
                &&& out@[i].trajectory_write == false
                &&& out@[i].group == 0
            },
{
    let one = T::from_int(1);
    let zero = T::from_int(0);
    let three = T::from_int(3);
    let neg_three = T::from_int(-3);
    let mut configs: Vec<BodyConfig<T>> = Vec::new();
    configs.push(BodyConfig {
        mass: one,
        state: [neg_three, three, zero, zero, zero, zero],
        drag_coefficient: zero,
        trajectory_write: false,
        group: 0,
    });
    configs.push(BodyConfig {
        mass: one,
        state: [neg_three, neg_three, zero, zero, zero, zero],
        drag_coefficient: zero,
        trajectory_write: false,
        group: 0,
    });
    configs.push(BodyConfig {
        mass: one,
        state: [three, three, zero, zero, zero, zero],
        drag_coefficient: zero,
        trajectory_write: false,
        group: 0,
    });
    configs.push(BodyConfig {
        mass: one,
        state: [three, neg_three, zero, zero, zero, zero],
        drag_coefficient: zero,
        trajectory_write: false,
        group: 0,
    });
    configs
}

} // verus!
