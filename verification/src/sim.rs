//! Group simulator: structure-of-arrays state for N translational point
//! masses, advanced by one classical fixed-step RK4 step at a time.
//!
//! Forces are latched by the caller (or a control law) and held constant
//! across the four stages of a step; linear drag is re-evaluated at each
//! intermediate velocity.  The contracts pin down the data discipline:
//! which arrays a call reads and writes, that a step never touches the
//! latched forces, and how trajectory recording grows.

use vstd::prelude::*;
use crate::linalg::V3;
use crate::scalar::Real;
use crate::scalar::ratio;

verus! {

/// Initial configuration of one body.
#[derive(Clone, Debug)]
pub struct BodyConfig<T> {
    pub mass: T,
    /// Packed state `[x, y, z, vx, vy, vz]`.
    pub state: [T; 6],
    pub drag_coefficient: T,
    /// Whether the body's trajectory is recorded after every step.
    pub trajectory_write: bool,
    /// Group tag used by bulk force assignment.
    pub group: usize,
}

impl<T: Real> BodyConfig<T> {
    /// A body with the given mass and packed state, no drag, no trajectory
    /// recording, group `0`.
    pub fn new(mass: T, state: [T; 6]) -> (c: Self)
        ensures
            c.mass == mass,
            c.state == state,
            c.trajectory_write == false,
            c.group == 0,
    {
        BodyConfig {
            mass,
            state,
            drag_coefficient: T::from_int(0),
            trajectory_write: false,
            group: 0,
        }
    }
}

/// Full information about one body at the current instant.
#[derive(Clone, Debug)]
pub struct BodySnapshot<T> {
    pub mass: T,
    pub state: [T; 6],
    pub drag_coefficient: T,
    pub trajectory_write: bool,
    pub group: usize,
    pub force: V3<T>,
}

/// One recorded trajectory sample: post-step position, velocity and time.
#[derive(Clone, Copy, Debug)]
pub struct TrajSample<T> {
    pub position: V3<T>,
    pub velocity: V3<T>,
    pub time: T,
}

/// A per-body force field: given the time and all positions and velocities,
/// produce one force per body.  Implementations live with the host; the
/// integrator only relies on the output having one entry per body.
pub trait ForceField<T: Real> {
    fn force_all(&self, time: T, positions: &Vec<V3<T>>, velocities: &Vec<V3<T>>) -> (out: Vec<
        V3<T>,
    >)
        ensures
            out@.len() == positions@.len(),
    ;
}

/// The abstract state of a [`Simulator`]: every per-body array, the clock
/// and the step size, plus the simulator's fixed scalar for zero.
pub struct SimView<T> {
    pub x: Seq<V3<T>>,
    pub v: Seq<V3<T>>,
    pub mass: Seq<T>,
    pub drag: Seq<T>,
    pub groups: Seq<usize>,
    pub forces: Seq<V3<T>>,
    pub traj: Seq<Option<Vec<TrajSample<T>>>>,
    pub time: T,
    pub dt: T,
    pub zero: T,
}

impl<T> SimView<T> {
    /// Number of bodies.
    pub open spec fn n(self) -> nat {
        self.x.len()
    }

    /// Every per-body array has exactly one entry per body.
    pub open spec fn wf(self) -> bool {
        &&& self.v.len() == self.n()
        &&& self.mass.len() == self.n()
        &&& self.drag.len() == self.n()
        &&& self.groups.len() == self.n()
        &&& self.forces.len() == self.n()
        &&& self.traj.len() == self.n()
    }

    /// The same state with the force array replaced.
    pub open spec fn with_forces(self, forces: Seq<V3<T>>) -> SimView<T> {
        SimView { forces, ..self }
    }

    /// The same state with positions and velocities replaced.
    pub open spec fn with_kinematics(self, x: Seq<V3<T>>, v: Seq<V3<T>>) -> SimView<T> {
        SimView { x, v, ..self }
    }

    /// The same state with the step size replaced.
    pub open spec fn with_dt(self, dt: T) -> SimView<T> {
        SimView { dt, ..self }
    }

    /// The same state after one step: new kinematics, new clock, new
    /// trajectory records.
    pub open spec fn with_step(
        self,
        x: Seq<V3<T>>,
        v: Seq<V3<T>>,
        time: T,
        traj: Seq<Option<Vec<TrajSample<T>>>>,
    ) -> SimView<T> {
        SimView { x, v, time, traj, ..self }
    }
}

/// Group simulator for a set of translational point masses.
#[derive(Debug)]
pub struct Simulator<T> {
    x: Vec<V3<T>>,
    v: Vec<V3<T>>,
    mass: Vec<T>,
    drag: Vec<T>,
    groups: Vec<usize>,
    forces: Vec<V3<T>>,
    traj: Vec<Option<Vec<TrajSample<T>>>>,
    time: T,
    dt: T,
    zero: T,
}

impl<T> View for Simulator<T> {
    type V = SimView<T>;

    closed spec fn view(&self) -> SimView<T> {
        SimView {
            x: self.x@,
            v: self.v@,
            mass: self.mass@,
            drag: self.drag@,
            groups: self.groups@,
            forces: self.forces@,
            traj: self.traj@,
            time: self.time,
            dt: self.dt,
            zero: self.zero,
        }
    }
}

impl<T: Real> Simulator<T> {
    /// Build a simulator from per-body configurations and a step size.
    /// Positions and velocities are unpacked from each `state`, forces start
    /// at the simulator's zero scalar, the clock starts at that same
    /// scalar, and trajectory recording starts empty.
    pub fn new(configs: &Vec<BodyConfig<T>>, dt: T) -> (s: Self)
        ensures
            s@.wf(),
            s@.n() == configs@.len(),
            s@.dt == dt,
            s@.time == s@.zero,
            forall|i: int|
                0 <= i < configs@.len() ==> s@.x[i] == (V3 {
                    x: configs@[i].state@[0],
                    y: configs@[i].state@[1],
                    z: configs@[i].state@[2],
                }),
            forall|i: int|
                0 <= i < configs@.len() ==> s@.v[i] == (V3 {
                    x: configs@[i].state@[3],
                    y: configs@[i].state@[4],
                    z: configs@[i].state@[5],
                }),
            forall|i: int| 0 <= i < configs@.len() ==> s@.mass[i] == configs@[i].mass,
            forall|i: int| 0 <= i < configs@.len() ==> s@.drag[i] == configs@[i].drag_coefficient,
            forall|i: int| 0 <= i < configs@.len() ==> s@.groups[i] == configs@[i].group,
            forall|i: int|
                0 <= i < configs@.len() ==> s@.forces[i] == (V3 {
                    x: s@.zero,
                    y: s@.zero,
                    z: s@.zero,
                }),
            forall|i: int|
                0 <= i < configs@.len() ==> (s@.traj[i] is Some) == configs@[i].trajectory_write,
            forall|i: int|
                0 <= i < configs@.len() ==> (s@.traj[i] is Some ==> s@.traj[i]->0@.len() == 0),
    {
        let n = configs.len();
        let zero = T::from_int(0);
        let mut x: Vec<V3<T>> = Vec::new();
        let mut v: Vec<V3<T>> = Vec::new();
        let mut mass: Vec<T> = Vec::new();
        let mut drag: Vec<T> = Vec::new();
        let mut groups: Vec<usize> = Vec::new();
        let mut forces: Vec<V3<T>> = Vec::new();
        let mut traj: Vec<Option<Vec<TrajSample<T>>>> = Vec::new();
        for i in 0..n
            invariant
                x@.len() == i,
                v@.len() == i,
                mass@.len() == i,
                drag@.len() == i,
                groups@.len() == i,
                forces@.len() == i,
                traj@.len() == i,
                forall|k: int|
                    0 <= k < i ==> x@[k] == (V3 {
                        x: configs@[k].state@[0],
                        y: configs@[k].state@[1],
                        z: configs@[k].state@[2],
                    }),
                forall|k: int|
                    0 <= k < i ==> v@[k] == (V3 {
                        x: configs@[k].state@[3],
                        y: configs@[k].state@[4],
                        z: configs@[k].state@[5],
                    }),
                forall|k: int| 0 <= k < i ==> mass@[k] == configs@[k].mass,
                forall|k: int| 0 <= k < i ==> drag@[k] == configs@[k].drag_coefficient,
                forall|k: int| 0 <= k < i ==> groups@[k] == configs@[k].group,
                forall|k: int| 0 <= k < i ==> forces@[k] == (V3 { x: zero, y: zero, z: zero }),
                forall|k: int|
                    0 <= k < i ==> (traj@[k] is Some) == configs@[k].trajectory_write,
                forall|k: int|
                    0 <= k < i ==> (traj@[k] is Some ==> traj@[k]->0@.len() == 0),
        {
            let c = &configs[i];
            x.push(V3 { x: c.state[0], y: c.state[1], z: c.state[2] });
            v.push(V3 { x: c.state[3], y: c.state[4], z: c.state[5] });
            mass.push(c.mass);
            drag.push(c.drag_coefficient);
            groups.push(c.group);
            forces.push(V3 { x: zero, y: zero, z: zero });
            if c.trajectory_write {
                traj.push(Some(Vec::new()));
            } else {
                traj.push(None);
            }
        }
        Simulator { x, v, mass, drag, groups, forces, traj, time: zero, dt, zero }
    }

    /// Number of bodies.
    pub fn len(&self) -> (n: usize)
        ensures
            n == self@.n(),
    {
        self.x.len()
    }

    /// Whether the simulator holds no bodies.
    pub fn is_empty(&self) -> (r: bool)
        ensures
            r == (self@.n() == 0),
    {
        self.x.len() == 0
    }

    /// Current model time.
    pub fn time(&self) -> (t: T)
        ensures
            t == self@.time,
    {
        self.time
    }

    /// Current step size.
    pub fn dt(&self) -> (dt: T)
        ensures
            dt == self@.dt,
    {
        self.dt
    }

    /// The simulator's fixed scalar for zero, written by plane flattening.
    pub fn zero_scalar(&self) -> (z: T)
        ensures
            z == self@.zero,
    {
        self.zero
    }

    /// Replace the step size; nothing else changes.
    pub fn set_dt(&mut self, dt: T)
        ensures
            final(self)@ == old(self)@.with_dt(dt),
    {
        self.dt = dt;
    }

    /// Group tags, one per body.
    pub fn groups(&self) -> (g: &Vec<usize>)
        ensures
            g@ == self@.groups,
    {
        &self.groups
    }

    /// Current positions, one per body.
    pub fn positions(&self) -> (p: &Vec<V3<T>>)
        ensures
            p@ == self@.x,
    {
        &self.x
    }

    /// Current velocities, one per body.
    pub fn velocities(&self) -> (v: &Vec<V3<T>>)
        ensures
            v@ == self@.v,
    {
        &self.v
    }

    /// Per-body masses.
    pub fn masses(&self) -> (m: &Vec<T>)
        ensures
            m@ == self@.mass,
    {
        &self.mass
    }

    /// Per-body drag coefficients.
    pub fn drags(&self) -> (d: &Vec<T>)
        ensures
            d@ == self@.drag,
    {
        &self.drag
    }

    /// Overwrite body `i`'s position; nothing else changes.
    pub fn set_position(&mut self, i: usize, pos: V3<T>)
        requires
            old(self)@.wf(),
            i < old(self)@.n(),
        ensures
            final(self)@ == old(self)@.with_kinematics(
                old(self)@.x.update(i as int, pos),
                old(self)@.v,
            ),
    {
        self.x[i] = pos;
    }

    /// Overwrite body `i`'s velocity; nothing else changes.
    pub fn set_velocity(&mut self, i: usize, vel: V3<T>)
        requires
            old(self)@.wf(),
            i < old(self)@.n(),
        ensures
            final(self)@ == old(self)@.with_kinematics(
                old(self)@.x,
                old(self)@.v.update(i as int, vel),
            ),
    {
        self.v[i] = vel;
    }

    /// Latch an external force on body `i`; nothing else changes.  The value
    /// stays latched until overwritten and is held constant across all four
    /// stages of every subsequent step.
    pub fn set_force(&mut self, i: usize, f: V3<T>)
        requires
            old(self)@.wf(),
            i < old(self)@.n(),
        ensures
            final(self)@ == old(self)@.with_forces(old(self)@.forces.update(i as int, f)),
    {
        self.forces[i] = f;
    }

    /// Latch `f` on every body whose group tag equals `group`; every other
    /// body's force and all other state are unchanged.
    pub fn set_group_force(&mut self, group: usize, f: V3<T>)
        requires
            old(self)@.wf(),
        ensures
            final(self)@ == old(self)@.with_forces(final(self)@.forces),
            final(self)@.forces.len() == old(self)@.forces.len(),
            forall|i: int|
                0 <= i < old(self)@.n() ==> final(self)@.forces[i] == (if old(self)@.groups[i]
                    == group {
                    f
                } else {
                    old(self)@.forces[i]
                }),
    {
        let n = self.groups.len();
        for i in 0..n
            invariant
                self@ == old(self)@.with_forces(self@.forces),
                self@.forces.len() == old(self)@.forces.len(),
                forall|k: int|
                    0 <= k < i ==> self@.forces[k] == (if old(self)@.groups[k] == group {
                        f
                    } else {
                        old(self)@.forces[k]
                    }),
                forall|k: int| i <= k < n ==> self@.forces[k] == old(self)@.forces[k],
        {
            if self.groups[i] == group {
                self.forces[i] = f;
            }
        }
    }

    /// The recorded trajectory of body `i`, if recording is enabled for it.
    pub fn trajectory_of(&self, i: usize) -> (r: Option<&Vec<TrajSample<T>>>)
        requires
            self@.wf(),
            i < self@.n(),
        ensures
            (r is Some) == (self@.traj[i as int] is Some),
            r is Some ==> r->0@ == self@.traj[i as int]->0@,
    {
        self.traj[i].as_ref()
    }

    /// The packed `N x 6` state matrix `[x, y, z, vx, vy, vz]`.
    pub fn state_matrix(&self) -> (out: Vec<[T; 6]>)
        requires
            self@.wf(),
        ensures
            out@.len() == self@.n(),
            forall|i: int|
                0 <= i < self@.n() ==> {
                    &&& out@[i]@[0] == self@.x[i].x
                    &&& out@[i]@[1] == self@.x[i].y
                    &&& out@[i]@[2] == self@.x[i].z
                    &&& out@[i]@[3] == self@.v[i].x
                    &&& out@[i]@[4] == self@.v[i].y
                    &&& out@[i]@[5] == self@.v[i].z
                },
    {
        let n = self.x.len();
        let mut out: Vec<[T; 6]> = Vec::new();
        for i in 0..n
            invariant
                out@.len() == i,
                forall|k: int|
                    0 <= k < i ==> {
                        &&& out@[k]@[0] == self@.x[k].x
                        &&& out@[k]@[1] == self@.x[k].y
                        &&& out@[k]@[2] == self@.x[k].z
                        &&& out@[k]@[3] == self@.v[k].x
                        &&& out@[k]@[4] == self@.v[k].y
                        &&& out@[k]@[5] == self@.v[k].z
                    },
        {
            let p = self.x[i];
            let w = self.v[i];
            out.push([p.x, p.y, p.z, w.x, w.y, w.z]);
        }
        out
    }

    /// A full snapshot of every body, for host display.
    pub fn body_snapshots(&self) -> (out: Vec<BodySnapshot<T>>)
        requires
            self@.wf(),
        ensures
            out@.len() == self@.n(),
            forall|i: int|
                #![trigger out@[i]]
                0 <= i < self@.n() ==> {
                    &&& out@[i].mass == self@.mass[i]
                    &&& out@[i].drag_coefficient == self@.drag[i]
                    &&& out@[i].group == self@.groups[i]
                    &&& out@[i].force == self@.forces[i]
                    &&& out@[i].trajectory_write == (self@.traj[i] is Some)
                },
            forall|i: int|
                #![trigger out@[i]]
                0 <= i < self@.n() ==> {
                    &&& out@[i].state@[0] == self@.x[i].x
                    &&& out@[i].state@[1] == self@.x[i].y
                    &&& out@[i].state@[2] == self@.x[i].z
                    &&& out@[i].state@[3] == self@.v[i].x
                    &&& out@[i].state@[4] == self@.v[i].y
                    &&& out@[i].state@[5] == self@.v[i].z
                },
    {
        let n = self.x.len();
        let mut out: Vec<BodySnapshot<T>> = Vec::new();
        for i in 0..n
            invariant
                out@.len() == i,
                forall|k: int|
                    #![trigger out@[k]]
                    0 <= k < i ==> {
                        &&& out@[k].mass == self@.mass[k]
                        &&& out@[k].drag_coefficient == self@.drag[k]
                        &&& out@[k].group == self@.groups[k]
                        &&& out@[k].force == self@.forces[k]
                        &&& out@[k].trajectory_write == (self@.traj[k] is Some)
                    },
                forall|k: int|
                    #![trigger out@[k]]
                    0 <= k < i ==> {
                        &&& out@[k].state@[0] == self@.x[k].x
                        &&& out@[k].state@[1] == self@.x[k].y
                        &&& out@[k].state@[2] == self@.x[k].z
                        &&& out@[k].state@[3] == self@.v[k].x
                        &&& out@[k].state@[4] == self@.v[k].y
                        &&& out@[k].state@[5] == self@.v[k].z
                    },
        {
            let p = self.x[i];
            let w = self.v[i];
            let is_recording = self.traj[i].is_some();
            out.push(BodySnapshot {
                mass: self.mass[i],
                state: [p.x, p.y, p.z, w.x, w.y, w.z],
                drag_coefficient: self.drag[i],
                trajectory_write: is_recording,
                group: self.groups[i],
                force: self.forces[i],
            });
        }
        out
    }

    /// Zero the third component of every position and velocity, writing the
    /// simulator's fixed zero scalar, and rewrite each recording body's
    /// newest trajectory sample to the flattened state, so that records
    /// stay snapshots of the state at the tick boundary.  Nothing else
    /// changes.
    pub fn flatten_to_plane(&mut self)
        requires
            old(self)@.wf(),
        ensures
            final(self)@.wf(),
            final(self)@ == old(self)@.with_step(
                final(self)@.x,
                final(self)@.v,
                old(self)@.time,
                final(self)@.traj,
            ),
            final(self)@.x.len() == old(self)@.x.len(),
            final(self)@.v.len() == old(self)@.v.len(),
            forall|i: int|
                0 <= i < old(self)@.n() ==> {
                    &&& final(self)@.x[i].x == old(self)@.x[i].x
                    &&& final(self)@.x[i].y == old(self)@.x[i].y
                    &&& final(self)@.x[i].z == old(self)@.zero
                    &&& final(self)@.v[i].x == old(self)@.v[i].x
                    &&& final(self)@.v[i].y == old(self)@.v[i].y
                    &&& final(self)@.v[i].z == old(self)@.zero
                },
            final(self)@.traj.len() == old(self)@.traj.len(),
            forall|i: int|
                0 <= i < old(self)@.n() ==> {
                    &&& (final(self)@.traj[i] is Some) == (old(self)@.traj[i] is Some)
                    &&& (old(self)@.traj[i] is None ==> final(self)@.traj[i] == old(self)@.traj[i])
                    &&& (old(self)@.traj[i] is Some ==> {
                        let before = old(self)@.traj[i]->0@;
                        let after = final(self)@.traj[i]->0@;
                        &&& after.len() == before.len()
                        &&& (forall|k: int| 0 <= k < before.len() - 1 ==> after[k] == before[k])
                        &&& (before.len() > 0 ==> after[before.len() - 1] == (TrajSample {
                            position: final(self)@.x[i],
                            velocity: final(self)@.v[i],
                            time: before[before.len() - 1].time,
                        }))
                    })
                },
    {
        let n = self.x.len();
        for i in 0..n
            invariant
                self@ == old(self)@.with_kinematics(self@.x, self@.v),
                self@.x.len() == old(self)@.x.len(),
                self@.v.len() == old(self)@.v.len(),
                forall|k: int|
                    0 <= k < i ==> {
                        &&& self@.x[k].x == old(self)@.x[k].x
                        &&& self@.x[k].y == old(self)@.x[k].y
                        &&& self@.x[k].z == old(self)@.zero
                        &&& self@.v[k].x == old(self)@.v[k].x
                        &&& self@.v[k].y == old(self)@.v[k].y
                        &&& self@.v[k].z == old(self)@.zero
                    },
                forall|k: int|
                    i <= k < n ==> self@.x[k] == old(self)@.x[k] && self@.v[k] == old(self)@.v[k],
        {
            let z0 = self.zero;
            let p = self.x[i];
            self.x[i] = p.with_z(z0);
            let w = self.v[i];
            self.v[i] = w.with_z(z0);
        }
        let ghost x_mid = self@.x;
        let ghost v_mid = self@.v;
        for i in 0..n
            invariant
                self@ == old(self)@.with_step(x_mid, v_mid, old(self)@.time, self@.traj),
                self@.x == x_mid,
                self@.v == v_mid,
                x_mid.len() == n,
                v_mid.len() == n,
                self@.traj.len() == n,
                forall|k: int|
                    0 <= k < i ==> {
                        &&& (self@.traj[k] is Some) == (old(self)@.traj[k] is Some)
                        &&& (old(self)@.traj[k] is None ==> self@.traj[k] == old(self)@.traj[k])
                        &&& (old(self)@.traj[k] is Some ==> {
                            let before = old(self)@.traj[k]->0@;
                            let after = self@.traj[k]->0@;
                            &&& after.len() == before.len()
                            &&& (forall|m: int| 0 <= m < before.len() - 1 ==> after[m] == before[m])
                            &&& (before.len() > 0 ==> after[before.len() - 1] == (TrajSample {
                                position: x_mid[k],
                                velocity: v_mid[k],
                                time: before[before.len() - 1].time,
                            }))
                        })
                    },
                forall|k: int| i <= k < n ==> self@.traj[k] == old(self)@.traj[k],
        {
            let flat_sample_pos = self.x[i];
            let flat_sample_vel = self.v[i];
            let entry = self.traj[i].take();
            match entry {
                Some(mut list) => {
                    let m = list.len();
                    if m > 0 {
                        let recorded_time = list[m - 1].time;
                        list[m - 1] = TrajSample {
                            position: flat_sample_pos,
                            velocity: flat_sample_vel,
                            time: recorded_time,
                        };
                    }
                    self.traj[i] = Some(list);
                },
                None => {},
            }
        }
    }

    /// One RK4 step driven by the latched forces, which are read, never
    /// written, and shared by all four stages.  Masses, drags, groups, the
    /// step size and the force array are unchanged; every recording body
    /// gains exactly one sample holding its post-step state and the new
    /// time; with no bodies the call leaves everything, the clock included,
    /// untouched.
    pub fn step(&mut self)
        requires
            old(self)@.wf(),
        ensures
            final(self)@.wf(),
            final(self)@ == old(self)@.with_step(
                final(self)@.x,
                final(self)@.v,
                final(self)@.time,
                final(self)@.traj,
            ),
            final(self)@.n() == old(self)@.n(),
            final(self)@.v.len() == old(self)@.v.len(),
            final(self)@.forces == old(self)@.forces,
            old(self)@.n() == 0 ==> final(self)@ == old(self)@,
            final(self)@.traj.len() == old(self)@.traj.len(),
            forall|i: int|
                0 <= i < old(self)@.n() ==> {
                    &&& (final(self)@.traj[i] is Some) == (old(self)@.traj[i] is Some)
                    &&& (old(self)@.traj[i] is None ==> final(self)@.traj[i] == old(self)@.traj[i])
                    &&& (old(self)@.traj[i] is Some ==> final(self)@.traj[i]->0@ == old(
                        self,
                    )@.traj[i]->0@.push(
                        TrajSample {
                            position: final(self)@.x[i],
                            velocity: final(self)@.v[i],
                            time: final(self)@.time,
                        },
                    ))
                },
    {
        let n = self.x.len();
        if n == 0 {
            return ;
        }
        let dt = self.dt;
        let half_dt = ratio::<T>(1, 2).times(dt);
        let two = T::from_int(2);
        let six = T::from_int(6);

        let mut k1x: Vec<V3<T>> = Vec::new();
        let mut k1v: Vec<V3<T>> = Vec::new();
        let mut tmp_x: Vec<V3<T>> = Vec::new();
        let mut tmp_v: Vec<V3<T>> = Vec::new();
        for i in 0..n
            invariant
                k1x@.len() == i,
                k1v@.len() == i,
                tmp_x@.len() == i,
                tmp_v@.len() == i,
        {
            let ki_x = self.v[i];
            let acc = self.forces[i].minus(self.v[i].scale(self.drag[i])).scale_div(self.mass[i]);
            k1x.push(ki_x);
            k1v.push(acc);
            tmp_x.push(self.x[i].plus(ki_x.scale(half_dt)));
            tmp_v.push(self.v[i].plus(acc.scale(half_dt)));
        }

        let mut k2x: Vec<V3<T>> = Vec::new();
        let mut k2v: Vec<V3<T>> = Vec::new();
        let mut tmp2_x: Vec<V3<T>> = Vec::new();
        let mut tmp2_v: Vec<V3<T>> = Vec::new();
        for i in 0..n
            invariant
                k2x@.len() == i,
                k2v@.len() == i,
                tmp2_x@.len() == i,
                tmp2_v@.len() == i,
        {
            let ki_x = tmp_v[i];
            let acc = self.forces[i].minus(tmp_v[i].scale(self.drag[i])).scale_div(self.mass[i]);
            k2x.push(ki_x);
            k2v.push(acc);
            tmp2_x.push(self.x[i].plus(ki_x.scale(half_dt)));
            tmp2_v.push(self.v[i].plus(acc.scale(half_dt)));
        }

        let mut k3x: Vec<V3<T>> = Vec::new();
        let mut k3v: Vec<V3<T>> = Vec::new();
        let mut tmp3_x: Vec<V3<T>> = Vec::new();
        let mut tmp3_v: Vec<V3<T>> = Vec::new();
        for i in 0..n
            invariant
                k3x@.len() == i,
                k3v@.len() == i,
                tmp3_x@.len() == i,
                tmp3_v@.len() == i,
        {
            let ki_x = tmp2_v[i];
            let acc = self.forces[i].minus(tmp2_v[i].scale(self.drag[i])).scale_div(self.mass[i]);
            k3x.push(ki_x);
            k3v.push(acc);
            tmp3_x.push(self.x[i].plus(ki_x.scale(dt)));
            tmp3_v.push(self.v[i].plus(acc.scale(dt)));
        }

        let mut k4x: Vec<V3<T>> = Vec::new();
        let mut k4v: Vec<V3<T>> = Vec::new();
        for i in 0..n
            invariant
                k4x@.len() == i,
                k4v@.len() == i,
        {
            let ki_x = tmp3_v[i];
            let acc = self.forces[i].minus(tmp3_v[i].scale(self.drag[i])).scale_div(self.mass[i]);
            k4x.push(ki_x);
            k4v.push(acc);
        }

        for i in 0..n
            invariant
                self@ == old(self)@.with_kinematics(self@.x, self@.v),
                self@.x.len() == n,
                self@.v.len() == n,
                k1x@.len() == n,
                k1v@.len() == n,
                k2x@.len() == n,
                k2v@.len() == n,
                k3x@.len() == n,
                k3v@.len() == n,
                k4x@.len() == n,
                k4v@.len() == n,
        {
            let dx = k1x[i].plus(k2x[i].scale(two)).plus(k3x[i].scale(two)).plus(k4x[i]).scale(
                dt,
            ).scale_div(six);
            let dv = k1v[i].plus(k2v[i].scale(two)).plus(k3v[i].scale(two)).plus(k4v[i]).scale(
                dt,
            ).scale_div(six);
            let p = self.x[i];
            self.x[i] = p.plus(dx);
            let w = self.v[i];
            self.v[i] = w.plus(dv);
        }

        self.time = self.time.plus(dt);

        self.record_trajectories();
    }

    /// One RK4 step driven by an external force field, evaluated on the
    /// intermediate states at times `t`, `t + dt/2`, `t + dt/2` and
    /// `t + dt`.  The latched force array is read by nobody and left
    /// untouched, as is every other per-body configuration; trajectory
    /// recording behaves as in [`Simulator::step`].
    pub fn step_with_field<F: ForceField<T>>(&mut self, field: &F)
        requires
            old(self)@.wf(),
        ensures
            final(self)@.wf(),
            final(self)@ == old(self)@.with_step(
                final(self)@.x,
                final(self)@.v,
                final(self)@.time,
                final(self)@.traj,
            ),
            final(self)@.n() == old(self)@.n(),
            final(self)@.v.len() == old(self)@.v.len(),
            final(self)@.forces == old(self)@.forces,
            old(self)@.n() == 0 ==> final(self)@ == old(self)@,
            final(self)@.traj.len() == old(self)@.traj.len(),
            forall|i: int|
                0 <= i < old(self)@.n() ==> {
                    &&& (final(self)@.traj[i] is Some) == (old(self)@.traj[i] is Some)
                    &&& (old(self)@.traj[i] is None ==> final(self)@.traj[i] == old(self)@.traj[i])
                    &&& (old(self)@.traj[i] is Some ==> final(self)@.traj[i]->0@ == old(
                        self,
                    )@.traj[i]->0@.push(
                        TrajSample {
                            position: final(self)@.x[i],
                            velocity: final(self)@.v[i],
                            time: final(self)@.time,
                        },
                    ))
                },
    {
        let n = self.x.len();
        if n == 0 {
            return ;
        }
        let dt = self.dt;
        let half_dt = ratio::<T>(1, 2).times(dt);
        let two = T::from_int(2);
        let six = T::from_int(6);

        let fx = field.force_all(self.time, &self.x, &self.v);
        let mut k1x: Vec<V3<T>> = Vec::new();
        let mut k1v: Vec<V3<T>> = Vec::new();
        let mut tmp_x: Vec<V3<T>> = Vec::new();
        let mut tmp_v: Vec<V3<T>> = Vec::new();
        for i in 0..n
            invariant
                fx@.len() == n,
                k1x@.len() == i,
                k1v@.len() == i,
                tmp_x@.len() == i,
                tmp_v@.len() == i,
        {
            let ki_x = self.v[i];
            let acc = fx[i].minus(self.v[i].scale(self.drag[i])).scale_div(self.mass[i]);
            k1x.push(ki_x);
            k1v.push(acc);
            tmp_x.push(self.x[i].plus(ki_x.scale(half_dt)));
            tmp_v.push(self.v[i].plus(acc.scale(half_dt)));
        }

        let mid_time = self.time.plus(half_dt);
        let fx = field.force_all(mid_time, &tmp_x, &tmp_v);
        let mut k2x: Vec<V3<T>> = Vec::new();
        let mut k2v: Vec<V3<T>> = Vec::new();
        let mut tmp2_x: Vec<V3<T>> = Vec::new();
        let mut tmp2_v: Vec<V3<T>> = Vec::new();
        for i in 0..n
            invariant
                tmp_x@.len() == n,
                tmp_v@.len() == n,
                fx@.len() == n,
                k2x@.len() == i,
                k2v@.len() == i,
                tmp2_x@.len() == i,
                tmp2_v@.len() == i,
        {
            let ki_x = tmp_v[i];
            let acc = fx[i].minus(tmp_v[i].scale(self.drag[i])).scale_div(self.mass[i]);
            k2x.push(ki_x);
            k2v.push(acc);
            tmp2_x.push(self.x[i].plus(ki_x.scale(half_dt)));
            tmp2_v.push(self.v[i].plus(acc.scale(half_dt)));
        }

        let fx = field.force_all(mid_time, &tmp2_x, &tmp2_v);
        let mut k3x: Vec<V3<T>> = Vec::new();
        let mut k3v: Vec<V3<T>> = Vec::new();
        let mut tmp3_x: Vec<V3<T>> = Vec::new();
        let mut tmp3_v: Vec<V3<T>> = Vec::new();
        for i in 0..n
            invariant
                tmp2_x@.len() == n,
                tmp2_v@.len() == n,
                fx@.len() == n,
                k3x@.len() == i,
                k3v@.len() == i,
                tmp3_x@.len() == i,
                tmp3_v@.len() == i,
        {
            let ki_x = tmp2_v[i];
            let acc = fx[i].minus(tmp2_v[i].scale(self.drag[i])).scale_div(self.mass[i]);
            k3x.push(ki_x);
            k3v.push(acc);
            tmp3_x.push(self.x[i].plus(ki_x.scale(dt)));
            tmp3_v.push(self.v[i].plus(acc.scale(dt)));
        }

        let end_time = self.time.plus(dt);
        let fx = field.force_all(end_time, &tmp3_x, &tmp3_v);
        let mut k4x: Vec<V3<T>> = Vec::new();
        let mut k4v: Vec<V3<T>> = Vec::new();
        for i in 0..n
            invariant
                tmp3_x@.len() == n,
                tmp3_v@.len() == n,
                fx@.len() == n,
                k4x@.len() == i,
                k4v@.len() == i,
        {
            let ki_x = tmp3_v[i];
            let acc = fx[i].minus(tmp3_v[i].scale(self.drag[i])).scale_div(self.mass[i]);
            k4x.push(ki_x);
            k4v.push(acc);
        }

        for i in 0..n
            invariant
                self@ == old(self)@.with_kinematics(self@.x, self@.v),
                self@.x.len() == n,
                self@.v.len() == n,
                k1x@.len() == n,
                k1v@.len() == n,
                k2x@.len() == n,
                k2v@.len() == n,
                k3x@.len() == n,
                k3v@.len() == n,
                k4x@.len() == n,
                k4v@.len() == n,
        {
            let dx = k1x[i].plus(k2x[i].scale(two)).plus(k3x[i].scale(two)).plus(k4x[i]).scale(
                dt,
            ).scale_div(six);
            let dv = k1v[i].plus(k2v[i].scale(two)).plus(k3v[i].scale(two)).plus(k4v[i]).scale(
                dt,
            ).scale_div(six);
            let p = self.x[i];
            self.x[i] = p.plus(dx);
            let w = self.v[i];
            self.v[i] = w.plus(dv);
        }

        self.time = self.time.plus(dt);

        self.record_trajectories();
    }

    /// Append one post-step sample to every recording body.
    fn record_trajectories(&mut self)
        requires
            old(self)@.wf(),
        ensures
            final(self)@.wf(),
            final(self)@ == old(self)@.with_step(
                old(self)@.x,
                old(self)@.v,
                old(self)@.time,
                final(self)@.traj,
            ),
            final(self)@.traj.len() == old(self)@.traj.len(),
            forall|i: int|
                0 <= i < old(self)@.n() ==> {
                    &&& (final(self)@.traj[i] is Some) == (old(self)@.traj[i] is Some)
                    &&& (old(self)@.traj[i] is None ==> final(self)@.traj[i] == old(self)@.traj[i])
                    &&& (old(self)@.traj[i] is Some ==> final(self)@.traj[i]->0@ == old(
                        self,
                    )@.traj[i]->0@.push(
                        TrajSample {
                            position: old(self)@.x[i],
                            velocity: old(self)@.v[i],
                            time: old(self)@.time,
                        },
                    ))
                },
    {
        let n = self.x.len();
        for i in 0..n
            invariant
                self@ == old(self)@.with_step(old(self)@.x, old(self)@.v, old(self)@.time, self@.traj),
                self@.x.len() == n,
                self@.v.len() == n,
                self@.traj.len() == n,
                forall|k: int|
                    0 <= k < i ==> {
                        &&& (self@.traj[k] is Some) == (old(self)@.traj[k] is Some)
                        &&& (old(self)@.traj[k] is None ==> self@.traj[k] == old(self)@.traj[k])
                        &&& (old(self)@.traj[k] is Some ==> self@.traj[k]->0@ == old(
                            self,
                        )@.traj[k]->0@.push(
                            TrajSample {
                                position: self@.x[k],
                                velocity: self@.v[k],
                                time: self@.time,
                            },
                        ))
                    },
                forall|k: int| i <= k < n ==> self@.traj[k] == old(self)@.traj[k],
        {
            let sample = TrajSample { position: self.x[i], velocity: self.v[i], time: self.time };
            let entry = self.traj[i].take();
            match entry {
                Some(mut list) => {
                    list.push(sample);
                    self.traj[i] = Some(list);
                },
                None => {},
            }
        }
    }
}

} // verus!
