//! Fixed-time distributed formation tracking with a robust exponential
//! control-barrier-function safety filter (stateful).
//!
//! Per tick the law evaluates the leader trajectory, integrates a
//! distributed observer and a disturbance observer by explicit Euler,
//! computes a nominal backstepping acceleration, projects it onto the
//! input box intersected with the obstacle barrier half-spaces, and latches
//! the resulting force.

use vstd::prelude::*;
use crate::linalg::V3;
use crate::linalg::copy_vec;
use crate::linalg::filled_vec;
use crate::model::ParticleModel;
use crate::obstacles::ObstaclePoly;
use crate::obstacles::paper_obstacles;
use crate::qp::Halfspace3;
use crate::qp::project_qp3;
use crate::scalar::Real;
use crate::scalar::ratio;

verus! {

/// The leader's reference trajectory.
#[derive(Clone, Copy, Debug)]
pub enum LeaderTrajectory<T> {
    /// The fixed analytic circle-and-climb of the reference scenario.
    Paper,
    /// A fixed point.
    Static { position: V3<T> },
    /// A quadratic `p(t) = a2 t^2 + a1 t + a0`.
    Poly { a2: V3<T>, a1: V3<T>, a0: V3<T> },
    /// A circle at constant height.
    Circle { center: V3<T>, radius: T, omega: T },
    /// The host-adjustable trajectory below.
    Custom,
}

/// One leader sample: position, velocity and acceleration.
#[derive(Clone, Copy, Debug)]
pub struct LeaderSample<T> {
    pub p: V3<T>,
    pub v: V3<T>,
    pub a: V3<T>,
}

impl<T: Real> LeaderTrajectory<T> {
    /// The leader sample at time `t`.
    pub fn state(&self, t: T) -> LeaderSample<T> {
        let zero = T::from_int(0);
        let two = T::from_int(2);
        match self {
            LeaderTrajectory::Paper => {
                let omega = ratio::<T>(-6, 100);
                let phase = T::pi();
                let angle = omega.times(t).plus(phase);
                let c = angle.cos();
                let s = angle.sin();
                let p = V3 {
                    x: T::from_int(60).plus(T::from_int(25).times(c)),
                    y: T::from_int(60).plus(T::from_int(25).times(s)),
                    z: ratio::<T>(1, 2).times(t),
                };
                let v = V3 {
                    x: ratio::<T>(15, 10).times(s),
                    y: ratio::<T>(-15, 10).times(c),
                    z: ratio::<T>(1, 2),
                };
                let a = V3 {
                    x: ratio::<T>(-9, 100).times(c),
                    y: ratio::<T>(-9, 100).times(s),
                    z: zero,
                };
                LeaderSample { p, v, a }
            },
            LeaderTrajectory::Static { position } => {
                LeaderSample { p: *position, v: V3::zero(), a: V3::zero() }
            },
            LeaderTrajectory::Poly { a2, a1, a0 } => {
                let p = a2.scale(t.times(t)).plus(a1.scale(t)).plus(*a0);
                let v = a2.scale(two.times(t)).plus(*a1);
                let a = a2.scale(two);
                LeaderSample { p, v, a }
            },
            LeaderTrajectory::Circle { center, radius, omega } => {
                let angle = omega.times(t);
                let c = angle.cos();
                let s = angle.sin();
                let p = V3 {
                    x: center.x.plus(radius.times(c)),
                    y: center.y.plus(radius.times(s)),
                    z: center.z,
                };
                let v = V3 {
                    x: radius.times(*omega).times(s).neg(),
                    y: radius.times(*omega).times(c),
                    z: zero,
                };
                let a = V3 {
                    x: radius.times(*omega).times(*omega).times(c).neg(),
                    y: radius.times(*omega).times(*omega).times(s).neg(),
                    z: zero,
                };
                LeaderSample { p, v, a }
            },
            LeaderTrajectory::Custom => custom_leader_trajectory(t),
        }
    }
}

/// The host-adjustable leader trajectory: a wide slow circle with a gentle
/// climb.
pub fn custom_leader_trajectory<T: Real>(t: T) -> LeaderSample<T> {
    let radius = T::from_int(15);
    let omega = ratio::<T>(4, 100);
    let climb = ratio::<T>(2, 10);
    let angle = omega.times(t);
    let p = V3 { x: radius.times(angle.cos()), y: radius.times(angle.sin()), z: climb.times(t) };
    let v = V3 {
        x: radius.times(omega).times(angle.sin()).neg(),
        y: radius.times(omega).times(angle.cos()),
        z: climb,
    };
    let a = V3 {
        x: radius.times(omega).times(omega).times(angle.cos()).neg(),
        y: radius.times(omega).times(omega).times(angle.sin()).neg(),
        z: T::from_int(0),
    };
    LeaderSample { p, v, a }
}

/// Configuration of the formation tracker and its safety filter.
#[derive(Clone, Debug)]
pub struct FormationEcbfParams<T> {
    // Nominal formation control.
    pub k1: T,
    pub k2: T,
    pub gamma1: T,
    pub gamma2: T,
    pub m1: T,
    pub m2: T,
    // Distributed observer.
    pub obs_k1: T,
    pub obs_k2: T,
    pub obs_k3: T,
    pub obs_a1: T,
    pub obs_a2: T,
    pub obs_b1: T,
    pub obs_b2: T,
    // Disturbance observer.
    pub do_kappa1: T,
    pub do_kappa2: T,
    pub do_kappa3: T,
    pub do_eta1: T,
    pub do_eta2: T,
    pub do_eta3: T,
    pub do_n1: T,
    pub do_n2: T,
    // Robust barrier terms.
    pub delta_theta: T,
    pub delta2_star: T,
    pub lambda1: T,
    pub lambda2: T,
    // Gravity and yaw, for the attitude readout.
    pub gravity: T,
    pub desired_yaw: T,
    pub leader_time_scale: T,
    pub leader_paused: bool,
    // Smoothing and filters.
    pub smooth_eps: T,
    pub mu_dot_filter: T,
    pub alpha_dot_filter: T,
    // Input box and projection rounds.
    pub u_min: V3<T>,
    pub u_max: V3<T>,
    pub qp_iters: usize,
    // Obstacles and formation definition.
    pub obstacles: Vec<ObstaclePoly<T>>,
    pub formation_offsets: Vec<V3<T>>,
    pub auto_offsets: bool,
    // Followers-only adjacency and leader links.
    pub adjacency: Vec<Vec<T>>,
    pub leader_links: Vec<T>,
    // Leader trajectory.
    pub leader: LeaderTrajectory<T>,
    // Moving-obstacle terms in the barrier derivative.
    pub use_moving_obstacle_terms: bool,
}

impl<T: Real> FormationEcbfParams<T> {
    /// The stock parameter set: the four-agent formation of the reference
    /// scenario around a slow circle.
    pub fn defaults() -> (r: Self)
        ensures
            r.obstacles@.len() == 6,
            r.formation_offsets@.len() == 4,
            r.adjacency@.len() == 4,
            forall|i: int| 0 <= i < 4 ==> r.adjacency@[i]@.len() == 4,
            r.leader_links@.len() == 4,
            r.auto_offsets == true,
            r.leader_paused == false,
            r.leader is Circle,
            r.use_moving_obstacle_terms == true,
            r.qp_iters == 12,
    {
        let zero = T::from_int(0);
        let one = T::from_int(1);
        let mut adjacency: Vec<Vec<T>> = Vec::new();
        adjacency.push(vec![zero, zero, one, zero]);
        adjacency.push(vec![zero, zero, one, one]);
        adjacency.push(vec![one, one, zero, zero]);
        adjacency.push(vec![zero, one, zero, zero]);

        let mut formation_offsets: Vec<V3<T>> = Vec::new();
        formation_offsets.push(V3 { x: T::from_int(-3), y: T::from_int(3), z: zero });
        formation_offsets.push(V3 { x: T::from_int(-3), y: T::from_int(-3), z: zero });
        formation_offsets.push(V3 { x: T::from_int(3), y: T::from_int(3), z: zero });
        formation_offsets.push(V3 { x: T::from_int(3), y: T::from_int(-3), z: zero });

        FormationEcbfParams {
            k1: T::from_int(2),
            k2: T::from_int(3),
            gamma1: ratio::<T>(1, 2),
            gamma2: ratio::<T>(1, 2),
            m1: one,
            m2: T::from_int(2),
            obs_k1: one,
            obs_k2: one,
            obs_k3: T::from_int(2),
            obs_a1: T::from_int(2),
            obs_a2: one,
            obs_b1: one,
            obs_b2: T::from_int(2),
            do_kappa1: T::from_int(4),
            do_kappa2: T::from_int(2),
            do_kappa3: T::from_int(3),
            do_eta1: ratio::<T>(15, 10),
            do_eta2: ratio::<T>(15, 10),
            do_eta3: ratio::<T>(1, 2),
            do_n1: ratio::<T>(1, 2),
            do_n2: ratio::<T>(15, 10),
            delta_theta: ratio::<T>(2, 10),
            delta2_star: zero,
            lambda1: T::from_int(2),
            lambda2: T::from_int(2),
            gravity: ratio::<T>(981, 100),
            desired_yaw: zero,
            leader_time_scale: one,
            leader_paused: false,
            smooth_eps: ratio::<T>(1, 100),
            mu_dot_filter: ratio::<T>(8, 10),
            alpha_dot_filter: ratio::<T>(8, 10),
            u_min: V3 { x: T::from_int(-6), y: T::from_int(-6), z: zero },
            u_max: V3 { x: T::from_int(6), y: T::from_int(6), z: T::from_int(20) },
            qp_iters: 12,
            obstacles: paper_obstacles::<T>(),
            formation_offsets,
            auto_offsets: true,
            adjacency,
            leader_links: vec![one, one, zero, zero],
            leader: LeaderTrajectory::Circle {
                center: V3 { x: zero, y: zero, z: zero },
                radius: T::from_int(6),
                omega: ratio::<T>(2, 10),
            },
            use_moving_obstacle_terms: true,
        }
    }
}

/// Per-agent observer and filter state kept between ticks.
#[derive(Clone, Debug)]
struct FormationEcbfState<T> {
    chi: Vec<V3<T>>,
    varsigma: Vec<V3<T>>,
    v_hat: Vec<V3<T>>,
    theta_hat: Vec<V3<T>>,
    p_state: Vec<V3<T>>,
    mu_prev: Vec<V3<T>>,
    mu_dot_prev: Vec<V3<T>>,
    alpha_prev: Vec<V3<T>>,
    alpha_dot_prev: Vec<V3<T>>,
    mu_ready: Vec<bool>,
    alpha_ready: Vec<bool>,
    formation_offsets: Vec<V3<T>>,
    offsets_ready: bool,
    attitudes: Vec<V3<T>>,
    thrusts: Vec<T>,
    leader_hold: Option<LeaderSample<T>>,
}

/// The abstract per-agent state of the formation tracker, as contracts see
/// it: one sequence per observer array, the readiness bits, the derived
/// offsets, the attitude readout and the leader latch.
pub struct EcbfStateView<T> {
    pub chi: Seq<V3<T>>,
    pub varsigma: Seq<V3<T>>,
    pub v_hat: Seq<V3<T>>,
    pub theta_hat: Seq<V3<T>>,
    pub p_state: Seq<V3<T>>,
    pub mu_prev: Seq<V3<T>>,
    pub mu_dot_prev: Seq<V3<T>>,
    pub alpha_prev: Seq<V3<T>>,
    pub alpha_dot_prev: Seq<V3<T>>,
    pub mu_ready: Seq<bool>,
    pub alpha_ready: Seq<bool>,
    pub formation_offsets: Seq<V3<T>>,
    pub offsets_ready: bool,
    pub attitudes: Seq<V3<T>>,
    pub thrusts: Seq<T>,
    pub leader_hold: Option<LeaderSample<T>>,
}

impl<T> EcbfStateView<T> {
    /// The same state with only the leader latch replaced.
    pub open spec fn with_hold(self, leader_hold: Option<LeaderSample<T>>) -> EcbfStateView<T> {
        EcbfStateView { leader_hold, ..self }
    }
}

/// The fixed-time formation tracker with its safety filter.
#[derive(Clone, Debug)]
pub struct FormationEcbf<T> {
    pub params: FormationEcbfParams<T>,
    state: FormationEcbfState<T>,
}

impl<T: Real> FormationEcbf<T> {
    /// The parameter block, as a specification value.
    pub closed spec fn params_spec(self) -> FormationEcbfParams<T> {
        self.params
    }

    /// The internal per-agent state, as a specification value.
    pub closed spec fn state_view(self) -> EcbfStateView<T> {
        EcbfStateView {
            chi: self.state.chi@,
            varsigma: self.state.varsigma@,
            v_hat: self.state.v_hat@,
            theta_hat: self.state.theta_hat@,
            p_state: self.state.p_state@,
            mu_prev: self.state.mu_prev@,
            mu_dot_prev: self.state.mu_dot_prev@,
            alpha_prev: self.state.alpha_prev@,
            alpha_dot_prev: self.state.alpha_dot_prev@,
            mu_ready: self.state.mu_ready@,
            alpha_ready: self.state.alpha_ready@,
            formation_offsets: self.state.formation_offsets@,
            offsets_ready: self.state.offsets_ready,
            attitudes: self.state.attitudes@,
            thrusts: self.state.thrusts@,
            leader_hold: self.state.leader_hold,
        }
    }

    /// Number of agents the internal state is sized for.
    pub open spec fn state_n(self) -> nat {
        self.state_view().chi.len()
    }

    /// Every per-agent state array has one entry per agent.
    pub open spec fn state_wf(self) -> bool {
        let v = self.state_view();
        &&& v.varsigma.len() == self.state_n()
        &&& v.v_hat.len() == self.state_n()
        &&& v.theta_hat.len() == self.state_n()
        &&& v.p_state.len() == self.state_n()
        &&& v.mu_prev.len() == self.state_n()
        &&& v.mu_dot_prev.len() == self.state_n()
        &&& v.alpha_prev.len() == self.state_n()
        &&& v.alpha_dot_prev.len() == self.state_n()
        &&& v.mu_ready.len() == self.state_n()
        &&& v.alpha_ready.len() == self.state_n()
        &&& v.attitudes.len() == self.state_n()
        &&& v.thrusts.len() == self.state_n()
    }

    /// The latched leader sample, if the leader is paused and has been
    /// sampled.
    pub open spec fn hold_spec(self) -> Option<LeaderSample<T>> {
        self.state_view().leader_hold
    }

    /// How one agent's controller state is re-zeroed by
    /// [`FormationEcbf::reset_agent`]: the velocity estimate and the
    /// virtual-velocity cache take the given velocity, the readiness bits
    /// clear, the estimator buffers of that agent are rewritten and every
    /// other agent's state, the observers, the offsets, the attitudes and
    /// the leader latch stay as they were.
    pub open spec fn agent_reset(pre: Self, post: Self, index: int, vel: V3<T>) -> bool {
        let b = pre.state_view();
        let a = post.state_view();
        &&& post.params_spec() == pre.params_spec()
        &&& a.leader_hold == b.leader_hold
        &&& a.chi == b.chi
        &&& a.varsigma == b.varsigma
        &&& a.attitudes == b.attitudes
        &&& a.thrusts == b.thrusts
        &&& a.formation_offsets == b.formation_offsets
        &&& a.offsets_ready == b.offsets_ready
        &&& a.v_hat == b.v_hat.update(index, vel)
        &&& a.alpha_prev == b.alpha_prev.update(index, vel)
        &&& a.mu_ready == b.mu_ready.update(index, false)
        &&& a.alpha_ready == b.alpha_ready.update(index, false)
        &&& a.theta_hat.len() == b.theta_hat.len()
        &&& a.p_state.len() == b.p_state.len()
        &&& a.mu_prev.len() == b.mu_prev.len()
        &&& a.mu_dot_prev.len() == b.mu_dot_prev.len()
        &&& a.alpha_dot_prev.len() == b.alpha_dot_prev.len()
        &&& forall|k: int|
            #![trigger b.theta_hat[k]]
            0 <= k < b.theta_hat.len() && k != index ==> {
                &&& a.theta_hat[k] == b.theta_hat[k]
                &&& a.p_state[k] == b.p_state[k]
                &&& a.mu_prev[k] == b.mu_prev[k]
                &&& a.mu_dot_prev[k] == b.mu_dot_prev[k]
                &&& a.alpha_dot_prev[k] == b.alpha_dot_prev[k]
            }
    }

    /// The same law with only the parameter block replaced.
    pub closed spec fn with_params(self, params: FormationEcbfParams<T>) -> Self {
        FormationEcbf { params, ..self }
    }

    /// Replace the parameter block atomically; the internal state is kept.
    pub fn set_params(&mut self, params: FormationEcbfParams<T>)
        ensures
            *final(self) == old(self).with_params(params),
            final(self).params_spec() == params,
            final(self).state_wf() == old(self).state_wf(),
            final(self).state_n() == old(self).state_n(),
            final(self).hold_spec() == old(self).hold_spec(),
    {
        self.params = params;
    }

    /// A law with the given parameters and empty internal state.
    pub fn new(params: FormationEcbfParams<T>) -> (r: Self)
        ensures
            r.params_spec() == params,
            r.state_wf(),
            r.state_n() == 0,
            r.hold_spec() is None,
    {
        FormationEcbf {
            params,
            state: FormationEcbfState {
                chi: Vec::new(),
                varsigma: Vec::new(),
                v_hat: Vec::new(),
                theta_hat: Vec::new(),
                p_state: Vec::new(),
                mu_prev: Vec::new(),
                mu_dot_prev: Vec::new(),
                alpha_prev: Vec::new(),
                alpha_dot_prev: Vec::new(),
                mu_ready: Vec::new(),
                alpha_ready: Vec::new(),
                formation_offsets: Vec::new(),
                offsets_ready: false,
                attitudes: Vec::new(),
                thrusts: Vec::new(),
                leader_hold: None,
            },
        }
    }

    /// The leader sample used this tick.  With `leader_paused` set, the
    /// first sample is latched and every later call returns the latch
    /// unchanged, whatever the time; without it the latch is cleared and
    /// the trajectory is sampled at the scaled time.
    pub fn leader_state(&mut self, t: T) -> (r: LeaderSample<T>)
        ensures
            final(self).params_spec() == old(self).params_spec(),
            final(self).state_view() == old(self).state_view().with_hold(
                final(self).hold_spec(),
            ),
            old(self).params_spec().leader_paused ==> (match old(self).hold_spec() {
                Some(h) => r == h && final(self).hold_spec() == old(self).hold_spec(),
                None => final(self).hold_spec() == Some(r),
            }),
            !old(self).params_spec().leader_paused ==> final(self).hold_spec() is None,
    {
        if self.params.leader_paused {
            match self.state.leader_hold {
                Some(held) => {
                    return held;
                },
                None => {},
            }
            let scaled = t.times(self.params.leader_time_scale);
            let sample = self.params.leader.state(scaled);
            self.state.leader_hold = Some(sample);
            return sample;
        }
        self.state.leader_hold = None;
        let scaled = t.times(self.params.leader_time_scale);
        self.params.leader.state(scaled)
    }

    /// Lazily initialise the per-agent state for `n` agents: position and
    /// velocity observers at the leader sample, velocity estimates at the
    /// current velocities, readiness bits clear, offsets to be re-derived,
    /// everything else zero.  A state already sized for `n` is untouched.
    /// The leader latch survives the re-initialisation in either case: the
    /// latch is constant from the first paused sample on, whatever happens
    /// to the per-agent arrays.
    fn ensure_state(&mut self, n: usize, velocities: &Vec<V3<T>>, p0: V3<T>, v0: V3<T>)
        requires
            velocities@.len() == n,
        ensures
            final(self).params == old(self).params,
            final(self).state_wf(),
            final(self).state_n() == n,
            final(self).state.leader_hold == old(self).state.leader_hold,
            old(self).state_wf() && old(self).state_n() == n ==> *final(self) == *old(self),
            !(old(self).state_wf() && old(self).state_n() == n) ==> {
                let v = final(self).state_view();
                &&& (forall|i: int|
                    0 <= i < n ==> #[trigger] v.chi[i] == p0 && v.varsigma[i] == v0)
                &&& v.v_hat == velocities@
                &&& (forall|i: int|
                    0 <= i < n ==> !(#[trigger] v.mu_ready[i]) && !v.alpha_ready[i])
                &&& !v.offsets_ready
                &&& v.formation_offsets.len() == 0
            },
    {
        if self.state.chi.len() == n && self.state.varsigma.len() == n && self.state.v_hat.len()
            == n && self.state.theta_hat.len() == n && self.state.p_state.len() == n
            && self.state.mu_prev.len() == n && self.state.mu_dot_prev.len() == n
            && self.state.alpha_prev.len() == n && self.state.alpha_dot_prev.len() == n
            && self.state.mu_ready.len() == n && self.state.alpha_ready.len() == n
            && self.state.attitudes.len() == n && self.state.thrusts.len() == n {
            return ;
        }
        let zero = T::from_int(0);
        self.state.chi = filled_vec(p0, n);
        self.state.varsigma = filled_vec(v0, n);
        self.state.v_hat = copy_vec(velocities);
        self.state.theta_hat = vec![V3::zero(); n];
        self.state.p_state = vec![V3::zero(); n];
        self.state.mu_prev = vec![V3::zero(); n];
        self.state.mu_dot_prev = vec![V3::zero(); n];
        self.state.alpha_prev = vec![V3::zero(); n];
        self.state.alpha_dot_prev = vec![V3::zero(); n];
        self.state.mu_ready = filled_vec(false, n);
        self.state.alpha_ready = filled_vec(false, n);
        self.state.formation_offsets = Vec::new();
        self.state.offsets_ready = false;
        self.state.attitudes = vec![V3::zero(); n];
        self.state.thrusts = vec![zero; n];
    }

    /// Derive the formation offsets once: from the configuration when it
    /// matches the agent count, else automatically from the initial
    /// positions relative to the leader, else all zero.
    fn ensure_offsets(&mut self, positions: &Vec<V3<T>>, leader_pos: V3<T>)
        ensures
            final(self).params == old(self).params,
            final(self).state.chi == old(self).state.chi,
            final(self).state.varsigma == old(self).state.varsigma,
            final(self).state.v_hat == old(self).state.v_hat,
            final(self).state.theta_hat == old(self).state.theta_hat,
            final(self).state.p_state == old(self).state.p_state,
            final(self).state.mu_prev == old(self).state.mu_prev,
            final(self).state.mu_dot_prev == old(self).state.mu_dot_prev,
            final(self).state.alpha_prev == old(self).state.alpha_prev,
            final(self).state.alpha_dot_prev == old(self).state.alpha_dot_prev,
            final(self).state.mu_ready == old(self).state.mu_ready,
            final(self).state.alpha_ready == old(self).state.alpha_ready,
            final(self).state.attitudes == old(self).state.attitudes,
            final(self).state.thrusts == old(self).state.thrusts,
            final(self).state.leader_hold == old(self).state.leader_hold,
            final(self).state.offsets_ready,
            old(self).state.offsets_ready ==> *final(self) == *old(self),
            !old(self).state.offsets_ready ==> final(self).state.formation_offsets@.len()
                == positions@.len(),
            !old(self).state.offsets_ready && old(self).params.formation_offsets@.len()
                == positions@.len() ==> final(self).state.formation_offsets@ == old(
                self,
            ).params.formation_offsets@,
    {
        if self.state.offsets_ready {
            return ;
        }
        let n = positions.len();
        if self.params.formation_offsets.len() == n {
            self.state.formation_offsets = copy_vec(&self.params.formation_offsets);
            self.state.offsets_ready = true;
            return ;
        }
        if self.params.auto_offsets {
            let mut offsets: Vec<V3<T>> = Vec::new();
            for i in 0..n
                invariant
                    positions@.len() == n,
                    offsets@.len() == i,
            {
                offsets.push(positions[i].minus(leader_pos));
            }
            self.state.formation_offsets = offsets;
            self.state.offsets_ready = true;
            return ;
        }
        self.state.formation_offsets = vec![V3::zero(); n];
        self.state.offsets_ready = true;
    }

    /// The adjacency weight between followers `i` and `j`: the configured
    /// matrix when it is `n` by `n`, else all-to-all.
    fn adj_weight(&self, i: usize, j: usize, n: usize) -> T
        requires
            i < n,
            j < n,
    {
        if self.params.adjacency.len() == n {
            let row = &self.params.adjacency[i];
            if row.len() == n {
                return row[j];
            }
        }
        if i == j {
            T::from_int(0)
        } else {
            T::from_int(1)
        }
    }

    /// The link weight between follower `i` and the leader: the configured
    /// vector when it has `n` entries, else one.
    fn leader_link(&self, i: usize, n: usize) -> T
        requires
            i < n,
    {
        if self.params.leader_links.len() == n {
            self.params.leader_links[i]
        } else {
            T::from_int(1)
        }
    }

    /// First backstepping exponent `2 - m1 / m2`.
    fn a1(&self) -> T {
        T::from_int(2).minus(
            self.params.m1.over(self.params.m2.max_of(ratio::<T>(1, 1000000))),
        )
    }

    /// Second backstepping exponent `m1 / m2`.
    fn a2(&self) -> T {
        self.params.m1.over(self.params.m2.max_of(ratio::<T>(1, 1000000)))
    }

    /// One explicit-Euler update of the distributed observer over the
    /// follower adjacency and the leader links.  Only the observer arrays
    /// change.
    fn update_distributed_observer(&mut self, n: usize, dt: T, p0: V3<T>, v0: V3<T>)
        requires
            old(self).state_wf(),
            old(self).state_n() == n,
        ensures
            final(self).params == old(self).params,
            final(self).state_wf(),
            final(self).state_n() == n,
            final(self).state.leader_hold == old(self).state.leader_hold,
            final(self).state.offsets_ready == old(self).state.offsets_ready,
            final(self).state.formation_offsets == old(self).state.formation_offsets,
    {
        let a1 = self.params.obs_a1.over(self.params.obs_a2.max_of(ratio::<T>(1, 1000000)));
        let b1 = self.params.obs_b1.over(self.params.obs_b2.max_of(ratio::<T>(1, 1000000)));
        let eps = self.params.smooth_eps;
        let zero = T::from_int(0);
        for i in 0..n
            invariant
                self.params == old(self).params,
                self.state_wf(),
                self.state_n() == n,
                self.state.leader_hold == old(self).state.leader_hold,
                self.state.offsets_ready == old(self).state.offsets_ready,
                self.state.formation_offsets == old(self).state.formation_offsets,
        {
            let mut sum_chi = V3::<T>::zero();
            let mut sum_var = V3::<T>::zero();
            for j in 0..n
                invariant
                    self.state_wf(),
                    self.state_n() == n,
            {
                if j != i {
                    let aij = self.adj_weight(i, j, n);
                    if !aij.same(zero) {
                        sum_chi = sum_chi.plus(
                            self.state.chi[i].minus(self.state.chi[j]).scale(aij),
                        );
                        sum_var = sum_var.plus(
                            self.state.varsigma[i].minus(self.state.varsigma[j]).scale(aij),
                        );
                    }
                }
            }
            let a_i0 = self.leader_link(i, n);
            if !a_i0.same(zero) {
                sum_chi = sum_chi.plus(self.state.chi[i].minus(p0).scale(a_i0));
                sum_var = sum_var.plus(self.state.varsigma[i].minus(v0).scale(a_i0));
            }

            let chi_dot = sig_pow_vec(sum_chi, a1, eps).scale(self.params.obs_k1.neg()).plus(
                sig_pow_vec(sum_chi, b1, eps).scale(self.params.obs_k2.neg()),
            ).plus(self.state.varsigma[i]);
            let varsigma_dot = sig_pow_vec(sum_var, a1, eps).scale(self.params.obs_k1.neg()).plus(
                sig_pow_vec(sum_var, b1, eps).scale(self.params.obs_k2.neg()),
            ).plus(sign_vec(sum_var, eps).scale(self.params.obs_k3.neg()));

            let new_chi = self.state.chi[i].plus(chi_dot.scale(dt));
            let new_var = self.state.varsigma[i].plus(varsigma_dot.scale(dt));
            self.state.chi[i] = new_chi;
            self.state.varsigma[i] = new_var;
        }
    }

    /// The nominal fixed-time virtual velocity `alpha` for one agent.
    fn compute_alpha(&self, z1: V3<T>, varsigma: V3<T>) -> V3<T> {
        z1.scale(self.params.k1.neg()).plus(
            sig_pow_vec(z1, self.a1(), self.params.smooth_eps).scale(self.params.gamma1.neg()),
        ).plus(
            sig_pow_vec(z1, self.a2(), self.params.smooth_eps).scale(self.params.gamma2.neg()),
        ).plus(varsigma)
    }

    /// Low-pass-filtered numerical derivative of `alpha` for agent `i`;
    /// the first call only caches and returns zero.
    fn update_alpha_dot(&mut self, i: usize, alpha: V3<T>, dt: T) -> (r: V3<T>)
        requires
            old(self).state_wf(),
            i < old(self).state_n(),
        ensures
            final(self).params == old(self).params,
            final(self).state_wf(),
            final(self).state_n() == old(self).state_n(),
            final(self).state.chi == old(self).state.chi,
            final(self).state.varsigma == old(self).state.varsigma,
            final(self).state.leader_hold == old(self).state.leader_hold,
            final(self).state.offsets_ready == old(self).state.offsets_ready,
            final(self).state.formation_offsets == old(self).state.formation_offsets,
    {
        if !self.state.alpha_ready[i] {
            self.state.alpha_prev[i] = alpha;
            self.state.alpha_dot_prev[i] = V3::zero();
            self.state.alpha_ready[i] = true;
            return V3::zero();
        }
        let raw = alpha.minus(self.state.alpha_prev[i]).scale_div(dt);
        let beta = self.params.alpha_dot_filter.max_of(T::from_int(0)).min_of(
            ratio::<T>(999, 1000),
        );
        let one = T::from_int(1);
        let filtered = self.state.alpha_dot_prev[i].scale(beta).plus(
            raw.scale(one.minus(beta)),
        );
        self.state.alpha_prev[i] = alpha;
        self.state.alpha_dot_prev[i] = filtered;
        filtered
    }

    /// One explicit-Euler update of the disturbance observer for agent `i`,
    /// driven by the applied input `u`; the first call only warms up the
    /// numerical derivative of the estimation error.
    fn update_disturbance_observer(&mut self, i: usize, v: V3<T>, u: V3<T>, gamma_v: V3<T>, dt: T)
        requires
            old(self).state_wf(),
            i < old(self).state_n(),
        ensures
            final(self).params == old(self).params,
            final(self).state_wf(),
            final(self).state_n() == old(self).state_n(),
            final(self).state.chi == old(self).state.chi,
            final(self).state.varsigma == old(self).state.varsigma,
            final(self).state.leader_hold == old(self).state.leader_hold,
            final(self).state.offsets_ready == old(self).state.offsets_ready,
            final(self).state.formation_offsets == old(self).state.formation_offsets,
            final(self).state.attitudes == old(self).state.attitudes,
            final(self).state.thrusts == old(self).state.thrusts,
    {
        let v_hat_dot = u.plus(gamma_v).plus(self.state.theta_hat[i]);
        let new_v_hat = self.state.v_hat[i].plus(v_hat_dot.scale(dt));
        self.state.v_hat[i] = new_v_hat;
        let mu = v.minus(new_v_hat);
        if !self.state.mu_ready[i] {
            self.state.mu_prev[i] = mu;
            self.state.mu_dot_prev[i] = V3::zero();
            self.state.mu_ready[i] = true;
            return ;
        }

        let one = T::from_int(1);
        let raw_mu_dot = mu.minus(self.state.mu_prev[i]).scale_div(dt);
        let beta = self.params.mu_dot_filter.max_of(T::from_int(0)).min_of(ratio::<T>(999, 1000));
        let mu_dot = self.state.mu_dot_prev[i].scale(beta).plus(raw_mu_dot.scale(one.minus(beta)));

        let eps = self.params.smooth_eps;
        let s = mu_dot.plus(self.state.p_state[i].scale(self.params.do_kappa1));
        let p_dot = sig_pow_vec(mu_dot, self.params.do_n1, eps).scale(self.params.do_kappa2).plus(
            sig_pow_vec(mu_dot, self.params.do_n2, eps).scale(self.params.do_kappa3),
        );
        let new_p = self.state.p_state[i].plus(p_dot.scale(dt));
        self.state.p_state[i] = new_p;

        let theta_dot = p_dot.scale(self.params.do_kappa1).plus(
            sig_pow_vec(s, self.params.do_n1, eps).scale(self.params.do_eta1),
        ).plus(sig_pow_vec(s, self.params.do_n2, eps).scale(self.params.do_eta2)).plus(
            sign_vec(s, eps).scale(self.params.do_eta3),
        );
        let new_theta = self.state.theta_hat[i].plus(theta_dot.scale(dt));
        self.state.theta_hat[i] = new_theta;

        self.state.mu_prev[i] = mu;
        self.state.mu_dot_prev[i] = mu_dot;
    }

    /// Record the visualised attitude and thrust for agent `i` from the
    /// applied acceleration.
    fn update_attitude(&mut self, i: usize, u: V3<T>, mass: T)
        requires
            old(self).state_wf(),
            i < old(self).state_n(),
        ensures
            final(self).params == old(self).params,
            final(self).state_wf(),
            final(self).state_n() == old(self).state_n(),
            final(self).state.chi == old(self).state.chi,
            final(self).state.varsigma == old(self).state.varsigma,
            final(self).state.leader_hold == old(self).state.leader_hold,
            final(self).state.offsets_ready == old(self).state.offsets_ready,
            final(self).state.formation_offsets == old(self).state.formation_offsets,
    {
        let one = T::from_int(1);
        let psi = self.params.desired_yaw;
        let sin_psi = psi.sin();
        let cos_psi = psi.cos();
        let uz = u.z.plus(self.params.gravity);
        let t = u.x.times(u.x).plus(u.y.times(u.y)).plus(uz.times(uz)).sqrt().max_of(
            ratio::<T>(1, 1000000),
        );
        let phi_arg = u.x.times(sin_psi).minus(u.y.times(cos_psi)).over(t);
        let phi = phi_arg.max_of(one.neg()).min_of(one).asin();
        let theta = u.x.times(cos_psi).plus(u.y.times(sin_psi)).atan2(uz);
        self.state.attitudes[i] = V3 { x: phi, y: theta, z: psi };
        self.state.thrusts[i] = t.times(mass);
    }

    /// The barrier half-space constraints for one agent against every
    /// obstacle, with the disturbance inflation from the current estimate.
    fn build_constraints(&self, p: V3<T>, v: V3<T>, gamma: T, theta_hat: V3<T>, t: T) -> Vec<
        Halfspace3<T>,
    > {
        let zero = T::from_int(0);
        let one = T::from_int(1);
        let two = T::from_int(2);
        let guard = ratio::<T>(1, 10000000000);
        let pi1 = self.params.lambda1.times(self.params.lambda2);
        let pi2 = self.params.lambda1.plus(self.params.lambda2);
        let mut out: Vec<Halfspace3<T>> = Vec::new();

        let n_obs = self.params.obstacles.len();
        for ob_idx in 0..n_obs
            invariant
                n_obs == self.params.obstacles@.len(),
        {
            let ob = &self.params.obstacles[ob_idx];
            let p_ob = ob.pos(t);
            let r = p.minus(p_ob);
            let r2 = r.norm_squared();
            if !r2.less(guard) {
                let d2 = ob.d.times(ob.d);
                let h = r2.minus(d2);

                let (c_base, lfh) = if self.params.use_moving_obstacle_terms {
                    let v_ob = ob.vel(t);
                    let a_ob = ob.acc();
                    let v_rel = v.minus(v_ob);
                    let lfh = two.times(r.dot(v_rel));
                    let c = two.times(v_rel.dot(v_rel)).plus(
                        two.times(r.dot(v.scale(gamma).minus(a_ob))),
                    );
                    (c, lfh)
                } else {
                    let lfh = two.times(r.dot(v));
                    let c = two.times(v.dot(v)).plus(two.times(r.dot(v.scale(gamma))));
                    (c, lfh)
                };

                let delta1 = two.times(r.norm()).times(
                    theta_hat.norm().plus(self.params.delta_theta),
                );
                let phi = pi1.times(h).plus(pi2.times(lfh)).minus(delta1);

                let xi1 = one.plus(self.params.delta2_star);
                let xi2 = one.minus(self.params.delta2_star);

                let a1 = r.scale(two.times(xi1));
                let b1 = phi.neg().minus(xi1.times(c_base));
                out.push(Halfspace3 { a: a1, b: b1 });

                if zero.less(self.params.delta2_star) {
                    let a2 = r.scale(two.times(xi2));
                    let b2 = phi.neg().minus(xi2.times(c_base));
                    out.push(Halfspace3 { a: a2, b: b2 });
                }
            }
        }

        out
    }

    /// The formation offset of agent `i`, or zero when none is configured.
    fn formation_offset(&self, i: usize) -> V3<T> {
        if i < self.state.formation_offsets.len() {
            self.state.formation_offsets[i]
        } else {
            V3::zero()
        }
    }

    /// The recorded attitudes, three values per agent.
    pub fn attitudes_flat(&self) -> (out: Vec<T>)
        requires
            self.state_wf(),
        ensures
            out@.len() == 3 * self.state_n(),
    {
        let n = self.state.attitudes.len();
        let mut out: Vec<T> = Vec::new();
        for i in 0..n
            invariant
                self.state_wf(),
                n == self.state_n(),
                out@.len() == 3 * i,
        {
            let a = self.state.attitudes[i];
            out.push(a.x);
            out.push(a.y);
            out.push(a.z);
        }
        out
    }

    /// Re-zero the controller state of one agent as
    /// [`FormationEcbf::agent_reset`] describes; its kinematics in the
    /// integrator are not touched here.  An index beyond the state is
    /// ignored.
    pub fn reset_agent(&mut self, index: usize, pos: V3<T>, vel: V3<T>)
        requires
            old(self).state_wf(),
        ensures
            final(self).params_spec() == old(self).params_spec(),
            final(self).state_wf(),
            final(self).state_n() == old(self).state_n(),
            final(self).hold_spec() == old(self).hold_spec(),
            index >= old(self).state_n() ==> *final(self) == *old(self),
            index < old(self).state_n() ==> Self::agent_reset(
                *old(self),
                *final(self),
                index as int,
                vel,
            ),
    {
        let _ = pos;
        if index >= self.state.chi.len() {
            return ;
        }
        self.state.v_hat[index] = vel;
        self.state.theta_hat[index] = V3::zero();
        self.state.p_state[index] = V3::zero();
        self.state.mu_prev[index] = V3::zero();
        self.state.mu_dot_prev[index] = V3::zero();
        self.state.alpha_prev[index] = vel;
        self.state.alpha_dot_prev[index] = V3::zero();
        self.state.mu_ready[index] = false;
        self.state.alpha_ready[index] = false;
    }

    /// One tick of the tracker: sample the leader, initialise lazily,
    /// advance the distributed observer, compute each agent's nominal
    /// acceleration, project it onto the input box intersected with the
    /// barrier half-spaces, latch the force, record the attitude and
    /// advance the disturbance observer.  Kinematics, masses, drags,
    /// groups, the clock and the trajectories are untouched; only the
    /// force array changes, keeping one entry per agent.  With no agents,
    /// or a non-finite or non-positive step size, nothing changes.
    pub fn apply(&mut self, model: &mut ParticleModel<T>, plane_2d: bool)
        requires
            old(self).state_wf(),
            old(model)@.wf(),
        ensures
            final(self).state_wf(),
            final(self).params_spec() == old(self).params_spec(),
            final(model)@.wf(),
            final(model)@ == old(model)@.with_forces(final(model)@.forces),
            final(model)@.forces.len() == old(model)@.forces.len(),
            (*final(self) == *old(self) && final(model)@ == old(model)@) || (
            final(self).state_n() == old(model)@.n() && (plane_2d ==> forall|i: int|
                0 <= i < old(model)@.n() ==> final(model)@.forces[i].z == old(model)@.zero)),
            old(model)@.n() == 0 ==> *final(self) == *old(self) && final(model)@ == old(model)@,
            old(self).params_spec().leader_paused && old(self).hold_spec() is Some
                ==> final(self).hold_spec() == old(self).hold_spec(),
    {
        let n = model.len();
        if n == 0 {
            return ;
        }
        let dt = model.dt();
        let zero = T::from_int(0);
        if !dt.finite() || dt.leq(zero) {
            return ;
        }
        let t = model.time();
        let z0 = model.zero_scalar();

        let (positions, velocities) = model.working_kinematics(plane_2d);

        let leader = self.leader_state(t);
        let p0 = leader.p;
        let v0 = leader.v;
        self.ensure_state(n, &velocities, p0, v0);
        self.ensure_offsets(&positions, p0);
        self.update_distributed_observer(n, dt, p0, v0);

        let masses = copy_vec(model.masses());
        let drags = copy_vec(model.drags());

        let ghost hold_mid = self.state.leader_hold;
        let mut forces: Vec<V3<T>> = Vec::new();
        for i in 0..n
            invariant
                self.params == old(self).params,
                self.state_wf(),
                self.state_n() == n,
                self.state.leader_hold == hold_mid,
                positions@.len() == n,
                velocities@.len() == n,
                masses@.len() == n,
                drags@.len() == n,
                forces@.len() == i,
                plane_2d ==> forall|k: int| 0 <= k < i ==> forces@[k].z == z0,
        {
            let p = positions[i];
            let v = velocities[i];
            let mass = masses[i].max_of(ratio::<T>(1, 1000000));
            let drag = drags[i];
            let gamma = drag.neg().over(mass);
            let gamma_v = v.scale(gamma);

            let p_star = self.formation_offset(i);
            let z1 = p.minus(self.state.chi[i]).minus(p_star);
            let alpha = self.compute_alpha(z1, self.state.varsigma[i]);
            let alpha_dot = self.update_alpha_dot(i, alpha, dt);
            let z2 = v.minus(alpha);

            let u_nom = z2.scale(self.params.k2.neg()).minus(z1).minus(
                sig_pow_vec(z2, self.a1(), self.params.smooth_eps).scale(self.params.gamma1),
            ).minus(
                sig_pow_vec(z2, self.a2(), self.params.smooth_eps).scale(self.params.gamma2),
            ).plus(alpha_dot).minus(self.state.theta_hat[i]).minus(gamma_v);

            let theta_hat_i = self.state.theta_hat[i];
            let constraints = self.build_constraints(p, v, gamma, theta_hat_i, t);

            let mut u = project_qp3(
                u_nom,
                self.params.u_min,
                self.params.u_max,
                &constraints,
                self.params.qp_iters,
            );

            if plane_2d {
                u = u.with_z(z0);
            }

            self.update_attitude(i, u, mass);
            if plane_2d {
                forces.push(u.scale(mass).with_z(z0));
            } else {
                forces.push(u.scale(mass));
            }
            self.update_disturbance_observer(i, v, u, gamma_v, dt);
        }

        model.set_forces_all(&forces);
    }
}

/// The componentwise smooth sign `x / sqrt(x^2 + eps^2)`.
fn smooth_sign<T: Real>(x: T, eps: T) -> T {
    x.over(x.times(x).plus(eps.times(eps)).sqrt())
}

/// The componentwise smoothed signed power `(x^2 + eps^2)^((a - 1) / 2) * x`.
fn sig_pow<T: Real>(x: T, a: T, eps: T) -> T {
    let zero = T::from_int(0);
    let one = T::from_int(1);
    let s = x.times(x).plus(eps.times(eps)).sqrt();
    if s.leq(zero) {
        zero
    } else {
        s.powf(a.minus(one)).times(x)
    }
}

/// The smooth sign applied to every component.
fn sign_vec<T: Real>(v: V3<T>, eps: T) -> V3<T> {
    V3 { x: smooth_sign(v.x, eps), y: smooth_sign(v.y, eps), z: smooth_sign(v.z, eps) }
}

/// The smoothed signed power applied to every component.
fn sig_pow_vec<T: Real>(v: V3<T>, a: T, eps: T) -> V3<T> {
    V3 { x: sig_pow(v.x, a, eps), y: sig_pow(v.y, a, eps), z: sig_pow(v.z, a, eps) }
}

} // verus!
