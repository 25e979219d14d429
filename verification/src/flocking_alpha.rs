//! Alpha-lattice flocking: smooth lattice-shaping gradient plus velocity
//! consensus (stateless).  The same nominal computation also feeds the
//! safety-filtered variant.

use vstd::prelude::*;
use crate::linalg::V3;
use crate::model::ParticleModel;
use crate::scalar::Real;
use crate::scalar::ratio;

verus! {

/// Configuration of the alpha-lattice law.
#[derive(Clone, Copy, Debug)]
pub struct FlockAlphaParams<T> {
    /// Interaction radius `r`; neighbours beyond it do not contribute.
    pub neighbor_radius: T,
    /// Target spacing `d` of the lattice.
    pub desired_distance: T,
    /// Smoothing epsilon of the sigma-norm.
    pub sigma_eps: T,
    /// Bump-function parameter `h`, clamped into `[0, 0.999]` on use.
    pub bump_h: T,
    /// Uneven-sigmoid parameters; equal values give a symmetric sigmoid.
    pub phi_a: T,
    pub phi_b: T,
    /// Scaling of the lattice-shaping (gradient) term.
    pub alpha_weight: T,
    /// Scaling of the velocity-consensus term.
    pub alignment_weight: T,
    /// Soft spherical boundary centred at the origin.
    pub boundary_radius: T,
    pub boundary_weight: T,
    /// Speed above which damping kicks in.
    pub max_speed: T,
    /// Cap on the magnitude of the emitted force.
    pub max_force: T,
    /// Weight of the speed-damping term.
    pub speed_limit: T,
}

impl<T: Real> FlockAlphaParams<T> {
    /// The stock parameter set.
    pub fn defaults() -> Self {
        FlockAlphaParams {
            neighbor_radius: ratio::<T>(26, 10),
            desired_distance: ratio::<T>(14, 10),
            sigma_eps: ratio::<T>(1, 10),
            bump_h: ratio::<T>(2, 10),
            phi_a: T::from_int(5),
            phi_b: T::from_int(5),
            alpha_weight: T::from_int(1),
            alignment_weight: ratio::<T>(65, 100),
            boundary_radius: T::from_int(6),
            boundary_weight: ratio::<T>(8, 10),
            max_speed: ratio::<T>(24, 10),
            max_force: ratio::<T>(16, 10),
            speed_limit: T::from_int(2),
        }
    }
}

/// The sigma-norm of a scalar: `(sqrt(1 + eps * s^2) - 1) / eps`.
pub(crate) fn sigma_norm_scalar<T: Real>(value: T, eps: T) -> T {
    let one = T::from_int(1);
    one.plus(eps.times(value).times(value)).sqrt().minus(one).over(eps)
}

/// The smooth cutoff bump: `1` on `[0, h)`, a cosine ramp on `[h, 1]`,
/// `0` elsewhere.
pub(crate) fn bump_rho<T: Real>(s: T, h: T) -> T {
    let zero = T::from_int(0);
    let one = T::from_int(1);
    if s.less(zero) {
        zero
    } else if s.less(h) {
        one
    } else if s.leq(one) {
        let denom = one.minus(h);
        if denom.leq(zero) {
            zero
        } else {
            ratio::<T>(1, 2).times(one.plus(T::pi().times(s.minus(h)).over(denom).cos()))
        }
    } else {
        zero
    }
}

/// The smooth unit sigmoid `x / sqrt(1 + x^2)`.
pub(crate) fn sigma1<T: Real>(x: T) -> T {
    let one = T::from_int(1);
    x.over(one.plus(x.times(x)).sqrt())
}

/// The uneven sigmoid `((a + b) * sigma1(x + c) + (a - b)) / 2` with
/// `c = |a - b| / sqrt(4 a b)`.
pub(crate) fn uneven_phi<T: Real>(x: T, a: T, b: T) -> T {
    let zero = T::from_int(0);
    let denom = T::from_int(4).times(a).times(b).sqrt();
    let c = if zero.less(denom) {
        a.minus(b).abs().over(denom)
    } else {
        zero
    };
    ratio::<T>(1, 2).times(a.plus(b).times(sigma1(x.plus(c))).plus(a.minus(b)))
}

/// The lattice-shaping gradient weight `rho_h(z / r_alpha) * phi(z - d_alpha)`.
pub(crate) fn phi_alpha<T: Real>(z: T, d_alpha: T, r_alpha: T, h: T, a: T, b: T) -> T {
    let zero = T::from_int(0);
    if r_alpha.leq(zero) {
        return zero;
    }
    bump_rho(z.over(r_alpha), h).times(uneven_phi(z.minus(d_alpha), a, b))
}

/// One nominal alpha-lattice acceleration per agent: gradient shaping plus
/// averaged velocity consensus, soft boundary, speed damping and magnitude
/// clamp.  Misconfigured radii, epsilons and bump parameters are sanitised
/// the same way on every call.  In the plane the third component of every
/// output is `z0`.
pub(crate) fn alpha_nominal<T: Real>(
    params: &FlockAlphaParams<T>,
    positions: &Vec<V3<T>>,
    velocities: &Vec<V3<T>>,
    plane_2d: bool,
    z0: T,
) -> (out: Vec<V3<T>>)
    requires
        velocities@.len() == positions@.len(),
    ensures
        out@.len() == positions@.len(),
        plane_2d ==> forall|i: int| 0 <= i < out@.len() ==> out@[i].z == z0,
{
    let n = positions.len();
    let zero = T::from_int(0);
    let one = T::from_int(1);

    let d = params.desired_distance;
    let mut r = params.neighbor_radius;
    if !r.finite() || r.leq(zero) {
        r = d.max_of(zero);
    }
    if r.less(d) {
        r = d;
    }
    let neighbor_r2 = r.times(r);

    let mut eps = params.sigma_eps;
    if !eps.finite() || eps.leq(zero) {
        eps = ratio::<T>(1, 1000000000);
    }

    let mut h = params.bump_h;
    if !h.finite() {
        h = ratio::<T>(2, 10);
    }
    if h.less(zero) {
        h = zero;
    }
    if one.leq(h) {
        h = ratio::<T>(999, 1000);
    }

    let a = if params.phi_a.finite() && zero.less(params.phi_a) {
        params.phi_a
    } else {
        T::from_int(5)
    };
    let b = if params.phi_b.finite() && zero.less(params.phi_b) {
        params.phi_b
    } else {
        T::from_int(5)
    };

    let d_alpha = sigma_norm_scalar(d.max_of(zero), eps);
    let r_alpha = sigma_norm_scalar(r, eps);

    let mut out: Vec<V3<T>> = Vec::new();
    for i in 0..n
        invariant
            positions@.len() == n,
            velocities@.len() == n,
            out@.len() == i,
            plane_2d ==> forall|k: int| 0 <= k < i ==> out@[k].z == z0,
    {
        let pos_i = positions[i];
        let vel_i = velocities[i];

        let mut grad_sum = V3::<T>::zero();
        let mut cons_sum = V3::<T>::zero();
        let mut neighbors: usize = 0;

        for j in 0..n
            invariant
                positions@.len() == n,
                velocities@.len() == n,
                neighbors <= j,
        {
            if j != i {
                let diff = positions[j].minus(pos_i);
                let dist2 = diff.norm_squared();
                if dist2.leq(neighbor_r2) {
                    neighbors = neighbors + 1;

                    let denom = one.plus(eps.times(dist2)).sqrt();
                    let z = denom.minus(one).over(eps);
                    let nij = if zero.less(denom) {
                        diff.scale_div(denom)
                    } else {
                        diff
                    };

                    let varphi = phi_alpha(z, d_alpha, r_alpha, h, a, b);
                    grad_sum = grad_sum.plus(nij.scale(varphi));

                    let aij = bump_rho(
                        if zero.less(r_alpha) {
                            z.over(r_alpha)
                        } else {
                            zero
                        },
                        h,
                    );
                    cons_sum = cons_sum.plus(velocities[j].minus(vel_i).scale(aij));
                }
            }
        }

        if neighbors > 0 {
            cons_sum = cons_sum.scale(one.over(T::from_count(neighbors)));
        }

        let mut force = grad_sum.scale(params.alpha_weight).plus(
            cons_sum.scale(params.alignment_weight),
        );

        let dist = pos_i.norm();
        if params.boundary_radius.less(dist) && zero.less(dist) {
            let dir = pos_i.scale_div(dist);
            force = force.plus(
                dir.neg().scale(dist.minus(params.boundary_radius)).scale(params.boundary_weight),
            );
        }

        let speed = vel_i.norm();
        if params.max_speed.less(speed) && zero.less(speed) {
            let dir = vel_i.scale_div(speed);
            force = force.plus(
                dir.neg().scale(speed.minus(params.max_speed)).scale(params.speed_limit),
            );
        }

        let fmag = force.norm();
        if params.max_force.less(fmag) && zero.less(fmag) {
            force = force.scale_div(fmag).scale(params.max_force);
        }

        if plane_2d {
            out.push(V3 { x: force.x, y: force.y, z: z0 });
        } else {
            out.push(force);
        }
    }
    out
}

/// The alpha-lattice flocking law.  It holds no per-agent state.
#[derive(Clone, Copy, Debug)]
pub struct FlockingAlpha<T> {
    pub params: FlockAlphaParams<T>,
}

impl<T: Real> FlockingAlpha<T> {
    /// A law with the given parameters.
    pub fn new(params: FlockAlphaParams<T>) -> (r: Self)
        ensures
            r.params == params,
    {
        FlockingAlpha { params }
    }

    /// Compute one alpha-lattice force per agent and latch all of them.
    /// Kinematics, masses, drags, groups, the clock and the trajectories
    /// are untouched; only the force array changes, keeping one entry per
    /// agent.  With no agents the call is a no-op; in the plane every
    /// emitted force has a zeroed third component.
    pub fn apply(&self, model: &mut ParticleModel<T>, plane_2d: bool)
        requires
            old(model)@.wf(),
        ensures
            final(model)@.wf(),
            final(model)@ == old(model)@.with_forces(final(model)@.forces),
            final(model)@.forces.len() == old(model)@.forces.len(),
            old(model)@.n() == 0 ==> final(model)@ == old(model)@,
            plane_2d ==> forall|i: int|
                0 <= i < old(model)@.n() ==> final(model)@.forces[i].z == old(model)@.zero,
    {
        let (positions, velocities) = model.working_kinematics(plane_2d);
        let n = positions.len();
        if n == 0 {
            return ;
        }
        let z0 = model.zero_scalar();
        let forces = alpha_nominal(&self.params, &positions, &velocities, plane_2d, z0);
        model.set_forces_all(&forces);
    }
}

} // verus!
