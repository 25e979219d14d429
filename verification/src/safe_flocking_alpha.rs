//! Safe alpha-lattice flocking: the nominal lattice command filtered per
//! agent by a CBF quadratic program over obstacle and inter-agent
//! constraints, projected in four dimensions (three controls plus slack).

use vstd::prelude::*;
use crate::flocking_alpha::FlockAlphaParams;
use crate::flocking_alpha::alpha_nominal;
use crate::linalg::V3;
use crate::linalg::V4;
use crate::linalg::copy_vec;
use crate::model::ParticleModel;
use crate::obstacles::ObstaclePoly;
use crate::obstacles::paper_obstacles;
use crate::qp::Halfspace4;
use crate::qp::project_qp4;
use crate::scalar::Real;
use crate::scalar::ratio;

verus! {

/// Configuration of the safety-filtered alpha-lattice law.
#[derive(Clone, Debug)]
pub struct SafeFlockAlphaParams<T> {
    /// Nominal alpha-lattice parameters (see [`FlockAlphaParams`]).
    pub neighbor_radius: T,
    pub desired_distance: T,
    pub sigma_eps: T,
    pub bump_h: T,
    pub phi_a: T,
    pub phi_b: T,
    pub alpha_weight: T,
    pub alignment_weight: T,
    pub boundary_radius: T,
    pub boundary_weight: T,
    pub max_speed: T,
    pub max_force: T,
    pub speed_limit: T,
    /// Whether obstacle constraints are emitted.
    pub use_obstacles: bool,
    /// Whether inter-agent constraints are emitted.
    pub use_agent_cbf: bool,
    /// Required centre distance between agents.
    pub agent_safe_distance: T,
    /// Radius within which inter-agent constraints are considered.
    pub cbf_neighbor_radius: T,
    pub lambda1: T,
    pub lambda2: T,
    /// Disturbance bound inflating the barrier.
    pub delta_theta: T,
    /// Relative input disturbance; a positive value emits a second
    /// obstacle constraint.
    pub delta2_star: T,
    /// Whether obstacle velocity and acceleration enter the constraint.
    pub use_moving_obstacle_terms: bool,
    /// Whether the agent sweep runs twice, feeding the first pass's
    /// commands to the second as the neighbour prediction.
    pub two_pass: bool,
    /// Box bounds on the acceleration command.
    pub u_min: V3<T>,
    pub u_max: V3<T>,
    /// Quadratic weight of the slack variable.
    pub slack_weight: T,
    /// Upper bound on the slack value.
    pub slack_max: T,
    pub smooth_eps: T,
    /// Projection rounds per agent.
    pub qp_iters: usize,
    pub obstacles: Vec<ObstaclePoly<T>>,
}

impl<T: Real> SafeFlockAlphaParams<T> {
    /// The stock parameter set, guarding against the reference obstacles.
    pub fn defaults() -> (r: Self)
        ensures
            r.obstacles@.len() == 6,
            r.qp_iters == 14,
            r.two_pass == false,
            r.use_obstacles == true,
            r.use_agent_cbf == true,
            r.use_moving_obstacle_terms == true,
    {
        SafeFlockAlphaParams {
            neighbor_radius: ratio::<T>(26, 10),
            desired_distance: ratio::<T>(14, 10),
            sigma_eps: ratio::<T>(1, 10),
            bump_h: ratio::<T>(2, 10),
            phi_a: T::from_int(5),
            phi_b: T::from_int(5),
            alpha_weight: T::from_int(1),
            alignment_weight: ratio::<T>(65, 100),
            boundary_radius: T::from_int(6),
            boundary_weight: ratio::<T>(8, 10),
            max_speed: ratio::<T>(24, 10),
            max_force: ratio::<T>(16, 10),
            speed_limit: T::from_int(2),
            use_obstacles: true,
            use_agent_cbf: true,
            agent_safe_distance: ratio::<T>(9, 10),
            cbf_neighbor_radius: ratio::<T>(26, 10),
            lambda1: T::from_int(2),
            lambda2: T::from_int(2),
            delta_theta: ratio::<T>(2, 10),
            delta2_star: T::from_int(0),
            use_moving_obstacle_terms: true,
            two_pass: false,
            u_min: V3 { x: T::from_int(-6), y: T::from_int(-6), z: T::from_int(-6) },
            u_max: V3 { x: T::from_int(6), y: T::from_int(6), z: T::from_int(6) },
            slack_weight: T::from_int(50),
            slack_max: T::from_int(50),
            smooth_eps: ratio::<T>(1, 100),
            qp_iters: 14,
            obstacles: paper_obstacles::<T>(),
        }
    }

    /// The nominal alpha-lattice parameters embedded in this block.
    fn nominal_params(&self) -> FlockAlphaParams<T> {
        FlockAlphaParams {
            neighbor_radius: self.neighbor_radius,
            desired_distance: self.desired_distance,
            sigma_eps: self.sigma_eps,
            bump_h: self.bump_h,
            phi_a: self.phi_a,
            phi_b: self.phi_b,
            alpha_weight: self.alpha_weight,
            alignment_weight: self.alignment_weight,
            boundary_radius: self.boundary_radius,
            boundary_weight: self.boundary_weight,
            max_speed: self.max_speed,
            max_force: self.max_force,
            speed_limit: self.speed_limit,
        }
    }
}

/// Per-agent debug state kept between ticks.
#[derive(Clone, Debug)]
struct SafeFlockAlphaState<T> {
    u_nom: Vec<V3<T>>,
    u_safe: Vec<V3<T>>,
    slack: Vec<T>,
    active: Vec<T>,
    total: Vec<T>,
}

/// The safety-filtered alpha-lattice law.
#[derive(Clone, Debug)]
pub struct SafeFlockingAlpha<T> {
    pub params: SafeFlockAlphaParams<T>,
    state: SafeFlockAlphaState<T>,
}

impl<T: Real> SafeFlockingAlpha<T> {
    /// The parameter block, as a specification value.
    pub closed spec fn params_spec(self) -> SafeFlockAlphaParams<T> {
        self.params
    }

    /// Number of agents the internal state is sized for.
    pub closed spec fn state_n(self) -> nat {
        self.state.u_safe@.len()
    }

    /// All five per-agent state arrays have the same length.
    pub closed spec fn state_wf(self) -> bool {
        &&& self.state.u_nom@.len() == self.state_n()
        &&& self.state.slack@.len() == self.state_n()
        &&& self.state.active@.len() == self.state_n()
        &&& self.state.total@.len() == self.state_n()
    }

    /// The same law with only the parameter block replaced.
    pub closed spec fn with_params(self, params: SafeFlockAlphaParams<T>) -> Self {
        SafeFlockingAlpha { params, ..self }
    }

    /// Replace the parameter block atomically; the internal state is kept.
    pub fn set_params(&mut self, params: SafeFlockAlphaParams<T>)
        ensures
            *final(self) == old(self).with_params(params),
            final(self).params_spec() == params,
            final(self).state_wf() == old(self).state_wf(),
            final(self).state_n() == old(self).state_n(),
    {
        self.params = params;
    }

    /// A law with the given parameters and empty internal state.
    pub fn new(params: SafeFlockAlphaParams<T>) -> (r: Self)
        ensures
            r.params_spec() == params,
            r.state_wf(),
            r.state_n() == 0,
    {
        SafeFlockingAlpha {
            params,
            state: SafeFlockAlphaState {
                u_nom: Vec::new(),
                u_safe: Vec::new(),
                slack: Vec::new(),
                active: Vec::new(),
                total: Vec::new(),
            },
        }
    }

    /// Per-agent debug values, nine per agent: the nominal command, the
    /// safe command, the slack, the number of active constraints and the
    /// number of constraints.
    pub fn debug_flat(&self) -> (out: Vec<T>)
        requires
            self.state_wf(),
        ensures
            out@.len() == 9 * self.state_n(),
    {
        let n = self.state.u_safe.len();
        let mut out: Vec<T> = Vec::new();
        for i in 0..n
            invariant
                self.state_wf(),
                n == self.state_n(),
                out@.len() == 9 * i,
        {
            let un = self.state.u_nom[i];
            let us = self.state.u_safe[i];
            out.push(un.x);
            out.push(un.y);
            out.push(un.z);
            out.push(us.x);
            out.push(us.y);
            out.push(us.z);
            out.push(self.state.slack[i]);
            out.push(self.state.active[i]);
            out.push(self.state.total[i]);
        }
        out
    }

    /// Size the internal state for `n` agents, zeroing it on a mismatch.
    fn ensure_state(&mut self, n: usize)
        ensures
            final(self).params_spec() == old(self).params_spec(),
            final(self).state_wf(),
            final(self).state_n() == n,
            old(self).state_wf() && old(self).state_n() == n ==> *final(self) == *old(self),
    {
        if self.state.u_nom.len() == n && self.state.u_safe.len() == n && self.state.slack.len()
            == n && self.state.active.len() == n && self.state.total.len() == n {
            return ;
        }
        let zero = T::from_int(0);
        self.state.u_nom = vec![V3::zero(); n];
        self.state.u_safe = vec![V3::zero(); n];
        self.state.slack = vec![zero; n];
        self.state.active = vec![zero; n];
        self.state.total = vec![zero; n];
    }

    /// CBF filtering of one agent's nominal command: collect obstacle and
    /// inter-agent half-space constraints, project in four dimensions, and
    /// report the slack, how many constraints are active at the result, how
    /// many were emitted, and the safe command.  At most two constraints
    /// arise per obstacle and one per other agent.
    fn filter_u(
        &self,
        i: usize,
        t: T,
        positions: &Vec<V3<T>>,
        velocities: &Vec<V3<T>>,
        masses: &Vec<T>,
        drags: &Vec<T>,
        p_i: V3<T>,
        v_i: V3<T>,
        gamma_i: T,
        u_nom: V3<T>,
        u_pred: &Vec<V3<T>>,
    ) -> (r: (T, usize, usize, V3<T>))
        requires
            velocities@.len() == positions@.len(),
            masses@.len() == positions@.len(),
            drags@.len() == positions@.len(),
            u_pred@.len() == positions@.len(),
            self.state_wf(),
            self.state_n() == positions@.len(),
            i < positions@.len(),
        ensures
            r.1 <= r.2,
            r.2 <= 2 * self.params.obstacles@.len() + positions@.len() - 1,
    {
        let zero = T::from_int(0);
        let one = T::from_int(1);
        let two = T::from_int(2);
        let guard = ratio::<T>(1, 10000000000);
        let mut constraints: Vec<Halfspace4<T>> = Vec::new();

        let lambda1 = self.params.lambda1.max_of(zero);
        let lambda2 = self.params.lambda2.max_of(zero);
        let pi1 = lambda1.times(lambda2);
        let pi2 = lambda1.plus(lambda2);

        let sigma = self.params.slack_weight.max_of(ratio::<T>(1, 1000000)).sqrt();
        let slack_coef = one.over(sigma);

        if self.params.use_obstacles {
            let n_obs = self.params.obstacles.len();
            for ob_idx in 0..n_obs
                invariant
                    n_obs == self.params.obstacles@.len(),
                    constraints@.len() <= 2 * ob_idx,
            {
                let ob = &self.params.obstacles[ob_idx];
                let p_ob = ob.pos(t);
                let r = p_i.minus(p_ob);
                let r2 = r.norm_squared();
                if !r2.less(guard) {
                    let h = r2.minus(ob.d.times(ob.d));
                    let (c_base, lfh) = if self.params.use_moving_obstacle_terms {
                        let v_ob = ob.vel(t);
                        let a_ob = ob.acc();
                        let v_rel = v_i.minus(v_ob);
                        let lfh = two.times(r.dot(v_rel));
                        let c = two.times(v_rel.dot(v_rel)).plus(
                            two.times(r.dot(v_i.scale(gamma_i).minus(a_ob))),
                        );
                        (c, lfh)
                    } else {
                        let lfh = two.times(r.dot(v_i));
                        let c = two.times(v_i.dot(v_i)).plus(two.times(r.dot(v_i.scale(gamma_i))));
                        (c, lfh)
                    };

                    let delta1 = two.times(r.norm()).times(self.params.delta_theta.max_of(zero));
                    let phi = pi1.times(h).plus(pi2.times(lfh)).minus(delta1);
                    let xi1 = one.plus(self.params.delta2_star);
                    let xi2 = one.minus(self.params.delta2_star);

                    let a_u = r.scale(two.times(xi1));
                    let b = phi.neg().minus(xi1.times(c_base));
                    constraints.push(
                        Halfspace4 { a: V4 { x: a_u.x, y: a_u.y, z: a_u.z, w: slack_coef }, b },
                    );

                    if zero.less(self.params.delta2_star) {
                        let a_u = r.scale(two.times(xi2));
                        let b = phi.neg().minus(xi2.times(c_base));
                        constraints.push(
                            Halfspace4 { a: V4 { x: a_u.x, y: a_u.y, z: a_u.z, w: slack_coef }, b },
                        );
                    }
                }
            }
        }

        let ghost obs_count = constraints@.len();
        proof {
            assert(obs_count <= 2 * self.params.obstacles@.len());
        }
        if self.params.use_agent_cbf {
            let n = positions.len();
            let mut rr = self.params.cbf_neighbor_radius;
            if !rr.finite() || rr.leq(zero) {
                rr = self.params.neighbor_radius.max_of(zero);
            }
            let rr2 = rr.times(rr);
            let d_safe = self.params.agent_safe_distance.max_of(zero);
            let d_safe2 = d_safe.times(d_safe);

            for j in 0..n
                invariant
                    positions@.len() == n,
                    velocities@.len() == n,
                    masses@.len() == n,
                    drags@.len() == n,
                    u_pred@.len() == n,
                    i < n,
                    constraints@.len() <= obs_count + j - (if (i as int) < j {
                        1int
                    } else {
                        0int
                    }),
            {
                if j != i {
                    let p_j = positions[j];
                    let r = p_i.minus(p_j);
                    let r2 = r.norm_squared();
                    if !r2.leq(guard) && !rr2.less(r2) {
                        let v_j = velocities[j];
                        let v_rel = v_i.minus(v_j);

                        let mass_j = masses[j].max_of(ratio::<T>(1, 1000000));
                        let drag_j = drags[j];
                        let gamma_j = drag_j.neg().over(mass_j);

                        // Neighbour predicted acceleration: the latest safe
                        // command snapshot.
                        let u_j = u_pred[j];

                        let h = r2.minus(d_safe2);
                        let lfh = two.times(r.dot(v_rel));
                        let c = two.times(v_rel.dot(v_rel)).plus(
                            two.times(
                                r.dot(v_i.scale(gamma_i).minus(v_j.scale(gamma_j)).minus(u_j)),
                            ),
                        );

                        let b = c.plus(pi1.times(h)).plus(pi2.times(lfh)).neg();
                        let a_u = r.scale(two);
                        constraints.push(
                            Halfspace4 { a: V4 { x: a_u.x, y: a_u.y, z: a_u.z, w: slack_coef }, b },
                        );
                    }
                }
            }
        }

        let y_nom = V4 { x: u_nom.x, y: u_nom.y, z: u_nom.z, w: zero };
        let box_min = V4 {
            x: self.params.u_min.x,
            y: self.params.u_min.y,
            z: self.params.u_min.z,
            w: zero,
        };
        let box_max = V4 {
            x: self.params.u_max.x,
            y: self.params.u_max.y,
            z: self.params.u_max.z,
            w: sigma.times(self.params.slack_max.max_of(zero)),
        };

        let y = project_qp4(y_nom, box_min, box_max, &constraints, self.params.qp_iters);
        let u = V3 { x: y.x, y: y.y, z: y.z };
        let slack = y.w.over(sigma).max_of(zero);

        let mut active: usize = 0;
        let tol = ratio::<T>(1, 1000);
        let m = constraints.len();
        for c_idx in 0..m
            invariant
                m == constraints@.len(),
                active <= c_idx,
        {
            let c = &constraints[c_idx];
            let margin = c.a.dot(y).minus(c.b);
            if margin.leq(tol) {
                active = active + 1;
            }
        }

        (slack, active, m, u)
    }

    /// Compute the nominal lattice command for every agent, filter each one
    /// through the CBF quadratic program (twice in two-pass mode), latch
    /// the filtered forces and keep the per-agent debug state.  Kinematics,
    /// masses, drags, groups, the clock and the trajectories are untouched;
    /// only the force array changes, keeping one entry per agent.  With no
    /// agents, or a non-finite or non-positive step size, nothing changes.
    pub fn apply(&mut self, model: &mut ParticleModel<T>, plane_2d: bool)
        requires
            old(self).state_wf(),
            old(model)@.wf(),
        ensures
            final(self).state_wf(),
            final(self).params_spec() == old(self).params_spec(),
            final(model)@.wf(),
            final(model)@ == old(model)@.with_forces(final(model)@.forces),
            final(model)@.forces.len() == old(model)@.forces.len(),
            (*final(self) == *old(self) && final(model)@ == old(model)@) || (
            final(self).state_n() == old(model)@.n() && (plane_2d ==> forall|i: int|
                0 <= i < old(model)@.n() ==> final(model)@.forces[i].z == old(model)@.zero)),
            old(model)@.n() == 0 ==> *final(self) == *old(self) && final(model)@ == old(model)@,
    {
        let n = model.len();
        if n == 0 {
            return ;
        }
        let dt = model.dt();
        let zero = T::from_int(0);
        if !dt.finite() || dt.leq(zero) {
            return ;
        }
        let t = model.time();
        let z0 = model.zero_scalar();

        let (positions, velocities) = model.working_kinematics(plane_2d);

        self.ensure_state(n);

        let masses = copy_vec(model.masses());
        let drags = copy_vec(model.drags());

        // Nominal commands for everyone; the inter-agent constraints need
        // them as the neighbour prediction on the very first tick.
        self.state.u_nom = alpha_nominal(
            &self.params.nominal_params(),
            &positions,
            &velocities,
            plane_2d,
            z0,
        );

        // Neighbour acceleration prediction: the last applied safe command,
        // or the current nominal before the first step.
        let mut u_pred = if t.leq(zero) {
            copy_vec(&self.state.u_nom)
        } else {
            copy_vec(&self.state.u_safe)
        };

        let passes: usize = if self.params.two_pass {
            2
        } else {
            1
        };

        let mut u_next: Vec<V3<T>> = vec![V3::zero(); n];
        let mut slack_next: Vec<T> = vec![zero; n];
        let mut active_next: Vec<T> = vec![zero; n];
        let mut total_next: Vec<T> = vec![zero; n];

        for pass in 0..passes
            invariant
                self.state_wf(),
                self.state_n() == n,
                self.params == old(self).params,
                positions@.len() == n,
                velocities@.len() == n,
                masses@.len() == n,
                drags@.len() == n,
                u_pred@.len() == n,
                u_next@.len() == n,
                slack_next@.len() == n,
                active_next@.len() == n,
                total_next@.len() == n,
                plane_2d && 0 < pass ==> forall|k: int| 0 <= k < n ==> u_next@[k].z == z0,
        {
            for i in 0..n
                invariant
                    self.state_wf(),
                    self.state_n() == n,
                    self.params == old(self).params,
                    positions@.len() == n,
                    velocities@.len() == n,
                    masses@.len() == n,
                    drags@.len() == n,
                    u_pred@.len() == n,
                    u_next@.len() == n,
                    slack_next@.len() == n,
                    active_next@.len() == n,
                    total_next@.len() == n,
                    plane_2d ==> forall|k: int| 0 <= k < i ==> u_next@[k].z == z0,
            {
                let p_i = positions[i];
                let v_i = velocities[i];
                let mass = masses[i].max_of(ratio::<T>(1, 1000000));
                let drag = drags[i];
                let gamma_i = drag.neg().over(mass);

                let u_nom = self.state.u_nom[i];
                let (slack, active_count, total_count, u_safe) = self.filter_u(
                    i,
                    t,
                    &positions,
                    &velocities,
                    &masses,
                    &drags,
                    p_i,
                    v_i,
                    gamma_i,
                    u_nom,
                    &u_pred,
                );

                let u_cmd = if plane_2d {
                    u_safe.with_z(z0)
                } else {
                    u_safe
                };

                u_next[i] = u_cmd;
                slack_next[i] = slack;
                active_next[i] = T::from_count(active_count);
                total_next[i] = T::from_count(total_count);
            }

            if pass + 1 < passes {
                u_pred = copy_vec(&u_next);
            }
        }

        let mut forces: Vec<V3<T>> = Vec::new();
        for i in 0..n
            invariant
                u_next@.len() == n,
                masses@.len() == n,
                forces@.len() == i,
                plane_2d ==> forall|k: int| 0 <= k < n ==> u_next@[k].z == z0,
                plane_2d ==> forall|k: int| 0 <= k < i ==> forces@[k].z == z0,
        {
            let mass = masses[i].max_of(ratio::<T>(1, 1000000));
            if plane_2d {
                forces.push(u_next[i].scale(mass).with_z(z0));
            } else {
                forces.push(u_next[i].scale(mass));
            }
        }

        self.state.u_safe = u_next;
        self.state.slack = slack_next;
        self.state.active = active_next;
        self.state.total = total_next;

        model.set_forces_all(&forces);
    }
}

} // verus!
