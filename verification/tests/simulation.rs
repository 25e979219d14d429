//! End-to-end behaviour of the integrator, the control laws and the QP
//! projector, instantiated with IEEE double precision.

use nginphy::{
    BodyConfig, Engine, FlockParams, FormationEcbf, FormationEcbfParams, Halfspace3,
    LeaderTrajectory, Real, SafeFlockAlphaParams, Simulator, V3, project_qp3,
};

#[derive(Clone, Copy, Debug, PartialEq)]
struct Fp(f64);

impl Real for Fp {
    fn plus(self, other: Self) -> Self {
        Fp(self.0 + other.0)
    }
    fn minus(self, other: Self) -> Self {
        Fp(self.0 - other.0)
    }
    fn times(self, other: Self) -> Self {
        Fp(self.0 * other.0)
    }
    fn over(self, other: Self) -> Self {
        Fp(self.0 / other.0)
    }
    fn neg(self) -> Self {
        Fp(-self.0)
    }
    fn sqrt(self) -> Self {
        Fp(self.0.sqrt())
    }
    fn powf(self, exponent: Self) -> Self {
        Fp(self.0.powf(exponent.0))
    }
    fn sin(self) -> Self {
        Fp(self.0.sin())
    }
    fn cos(self) -> Self {
        Fp(self.0.cos())
    }
    fn asin(self) -> Self {
        Fp(self.0.asin())
    }
    fn atan2(self, other: Self) -> Self {
        Fp(self.0.atan2(other.0))
    }
    fn abs(self) -> Self {
        Fp(self.0.abs())
    }
    fn max_of(self, other: Self) -> Self {
        Fp(self.0.max(other.0))
    }
    fn min_of(self, other: Self) -> Self {
        Fp(self.0.min(other.0))
    }
    fn less(self, other: Self) -> bool {
        self.0 < other.0
    }
    fn leq(self, other: Self) -> bool {
        self.0 <= other.0
    }
    fn same(self, other: Self) -> bool {
        self.0 == other.0
    }
    fn finite(self) -> bool {
        self.0.is_finite()
    }
    fn from_int(value: i64) -> Self {
        Fp(value as f64)
    }
    fn from_count(value: usize) -> Self {
        Fp(value as f64)
    }
    fn pi() -> Self {
        Fp(std::f64::consts::PI)
    }
}

fn v3(x: f64, y: f64, z: f64) -> V3<Fp> {
    V3 { x: Fp(x), y: Fp(y), z: Fp(z) }
}

fn states_of(engine: &Engine<Fp>) -> Vec<f64> {
    engine.state_matrix_flat().iter().map(|s| s.0).collect()
}

#[test]
fn single_body_constant_force() {
    // One body, unit mass, no drag, initial velocity +x, constant force -10x,
    // dt = 0.01, 30 steps: x = 0.30 - 0.5 * 10 * 0.09 = -0.15, vx = 1 - 3 = -2.
    let states: Vec<Fp> = vec![Fp(0.0), Fp(0.0), Fp(0.0), Fp(1.0), Fp(0.0), Fp(0.0)];
    let mut engine = Engine::new_from_states(&states, Fp(0.01), Some("none")).unwrap();
    engine.set_force(0, v3(-10.0, 0.0, 0.0));
    for _ in 0..30 {
        engine.tick();
    }
    let out = states_of(&engine);
    assert!((out[0] - (-0.15)).abs() < 1e-9, "x = {}", out[0]);
    assert!(out[1].abs() < 1e-12);
    assert!(out[2].abs() < 1e-12);
    assert!((out[3] - (-2.0)).abs() < 1e-9, "vx = {}", out[3]);
}

#[test]
fn two_bodies_independent() {
    // Agent 0 repeats the single-body scenario; agent 1 (mass 2, no force)
    // stays at the origin.
    let mut configs: Vec<BodyConfig<Fp>> = Vec::new();
    configs.push(BodyConfig {
        mass: Fp(1.0),
        state: [Fp(0.0), Fp(0.0), Fp(0.0), Fp(1.0), Fp(0.0), Fp(0.0)],
        drag_coefficient: Fp(0.0),
        trajectory_write: false,
        group: 0,
    });
    configs.push(BodyConfig {
        mass: Fp(2.0),
        state: [Fp(0.0); 6],
        drag_coefficient: Fp(0.0),
        trajectory_write: false,
        group: 0,
    });
    let mut engine = Engine::new_custom(&configs, Fp(0.01), Some("none"), false).unwrap();
    engine.set_force(0, v3(-10.0, 0.0, 0.0));
    for _ in 0..30 {
        engine.tick();
    }
    let out = states_of(&engine);
    assert!((out[0] - (-0.15)).abs() < 1e-9);
    assert!((out[3] - (-2.0)).abs() < 1e-9);
    for k in 6..12 {
        assert_eq!(out[k], 0.0, "agent 1 moved: state[{}] = {}", k, out[k]);
    }
}

#[test]
fn zero_force_drift() {
    // With no control, no drag and no force, position drifts linearly:
    // after k steps it is x0 + k * dt * v to within 1e-10 * k * |v|.
    let states: Vec<Fp> = vec![Fp(1.0), Fp(-2.0), Fp(0.5), Fp(0.3), Fp(-0.7), Fp(1.9)];
    let mut engine = Engine::new_from_states(&states, Fp(0.02), Some("none")).unwrap();
    let steps = 500usize;
    for _ in 0..steps {
        engine.tick();
    }
    let out = states_of(&engine);
    let k = steps as f64;
    let tol = 1e-10 * k * 2.2;
    assert!((out[0] - (1.0 + k * 0.02 * 0.3)).abs() < tol);
    assert!((out[1] - (-2.0 + k * 0.02 * -0.7)).abs() < tol);
    assert!((out[2] - (0.5 + k * 0.02 * 1.9)).abs() < tol);
    assert!((out[3] - 0.3).abs() < 1e-12);
    assert!((out[4] - -0.7).abs() < 1e-12);
    assert!((out[5] - 1.9).abs() < 1e-12);
}

#[test]
fn linear_drag_decay() {
    // Unit mass, drag c, no force: velocity decays like exp(-c k dt) up to
    // the RK4 truncation error.
    let c = 0.8;
    let dt = 0.01;
    let steps = 200usize;
    let mut configs: Vec<BodyConfig<Fp>> = Vec::new();
    configs.push(BodyConfig {
        mass: Fp(1.0),
        state: [Fp(0.0), Fp(0.0), Fp(0.0), Fp(3.0), Fp(-1.0), Fp(0.5)],
        drag_coefficient: Fp(c),
        trajectory_write: false,
        group: 0,
    });
    let mut engine = Engine::new_custom(&configs, Fp(dt), Some("none"), false).unwrap();
    for _ in 0..steps {
        engine.tick();
    }
    let out = states_of(&engine);
    let decay = (-c * steps as f64 * dt).exp();
    let tol = 1e-8;
    assert!((out[3] - 3.0 * decay).abs() < tol, "vx = {} vs {}", out[3], 3.0 * decay);
    assert!((out[4] - -1.0 * decay).abs() < tol);
    assert!((out[5] - 0.5 * decay).abs() < tol);
}

#[test]
fn plane_2d_zeroes_z_at_tick_boundary() {
    // With the plane enabled, the third components of position and velocity
    // are exactly zero after every tick, whatever the initial z.
    let mut configs: Vec<BodyConfig<Fp>> = Vec::new();
    configs.push(BodyConfig {
        mass: Fp(1.0),
        state: [Fp(0.5), Fp(-0.5), Fp(7.0), Fp(0.1), Fp(0.2), Fp(-3.0)],
        drag_coefficient: Fp(0.0),
        trajectory_write: false,
        group: 0,
    });
    let mut engine = Engine::new_custom(&configs, Fp(0.01), Some("flocking"), true).unwrap();
    engine.set_force(0, v3(1.0, 1.0, 9.0));
    for _ in 0..5 {
        engine.tick();
        let out = states_of(&engine);
        assert_eq!(out[2], 0.0, "position z = {}", out[2]);
        assert_eq!(out[5], 0.0, "velocity z = {}", out[5]);
    }
}

#[test]
fn flocking_separation_is_symmetric() {
    // Two agents at (1,0,0) and (-1,0,0) with only the separation term on:
    // agent 0 is pushed in +x, agent 1 in -x, with equal magnitudes.
    let mut configs: Vec<BodyConfig<Fp>> = Vec::new();
    configs.push(BodyConfig {
        mass: Fp(1.0),
        state: [Fp(1.0), Fp(0.0), Fp(0.0), Fp(0.0), Fp(0.0), Fp(0.0)],
        drag_coefficient: Fp(0.0),
        trajectory_write: false,
        group: 0,
    });
    configs.push(BodyConfig {
        mass: Fp(1.0),
        state: [Fp(-1.0), Fp(0.0), Fp(0.0), Fp(0.0), Fp(0.0), Fp(0.0)],
        drag_coefficient: Fp(0.0),
        trajectory_write: false,
        group: 0,
    });
    let mut engine = Engine::new_custom(&configs, Fp(0.01), Some("flocking"), false).unwrap();
    let params = FlockParams {
        neighbor_radius: Fp(0.0),
        separation_radius: Fp(3.0),
        cohesion_weight: Fp(0.0),
        alignment_weight: Fp(0.0),
        separation_weight: Fp(1.0),
        boundary_radius: Fp(1.0e9),
        boundary_weight: Fp(0.0),
        max_speed: Fp(1.0e9),
        max_force: Fp(1.0e9),
        speed_limit: Fp(0.0),
    };
    engine.set_flock_params(params).unwrap();
    engine.tick();
    let out = states_of(&engine);
    let vx0 = out[3];
    let vx1 = out[9];
    assert!(vx0 > 0.0, "agent 0 should accelerate in +x, vx = {}", vx0);
    assert!(vx1 < 0.0, "agent 1 should accelerate in -x, vx = {}", vx1);
    assert_eq!(vx0.to_bits(), (-vx1).to_bits(), "forces should be mirror images");
    assert_eq!(out[4], 0.0);
    assert_eq!(out[5], 0.0);
}

#[test]
fn qp3_projects_onto_halfspace_in_box() {
    // Projecting the origin onto [-1,1]^3 intersected with x >= 0.5 lands on
    // (0.5, 0, 0) within 1e-10 after eight rounds.
    let constraints = vec![Halfspace3 { a: v3(1.0, 0.0, 0.0), b: Fp(0.5) }];
    let r = project_qp3(
        v3(0.0, 0.0, 0.0),
        v3(-1.0, -1.0, -1.0),
        v3(1.0, 1.0, 1.0),
        &constraints,
        8,
    );
    assert!((r.x.0 - 0.5).abs() < 1e-10, "x = {}", r.x.0);
    assert!(r.y.0.abs() < 1e-10);
    assert!(r.z.0.abs() < 1e-10);
}

#[test]
fn qp_feasibility_with_many_halfspaces() {
    // With a compatible constraint set, the projector output satisfies every
    // half-space up to a tolerance that shrinks as rounds increase.
    let constraints = vec![
        Halfspace3 { a: v3(1.0, 0.0, 0.0), b: Fp(0.2) },
        Halfspace3 { a: v3(0.0, 1.0, 0.0), b: Fp(-0.3) },
        Halfspace3 { a: v3(1.0, 1.0, 1.0), b: Fp(0.5) },
        Halfspace3 { a: v3(-1.0, 2.0, 0.5), b: Fp(-2.0) },
    ];
    let nominal = v3(-4.0, -4.0, -4.0);
    let lo = v3(-5.0, -5.0, -5.0);
    let hi = v3(5.0, 5.0, 5.0);
    let mut last_violation = f64::INFINITY;
    for rounds in [4usize, 16, 64, 256] {
        let r = project_qp3(nominal, lo, hi, &constraints, rounds);
        let mut worst: f64 = 0.0;
        for c in &constraints {
            let margin = c.a.x.0 * r.x.0 + c.a.y.0 * r.y.0 + c.a.z.0 * r.z.0 - c.b.0;
            worst = worst.max((-margin).max(0.0));
        }
        assert!(
            worst <= last_violation + 1e-12,
            "violation grew from {} to {} at {} rounds",
            last_violation,
            worst,
            rounds
        );
        last_violation = worst;
    }
    assert!(last_violation < 1e-6, "violation after 256 rounds: {}", last_violation);
}

#[test]
fn engines_are_deterministic() {
    // Two engines built from the same description and ticked identically
    // report bit-identical states.
    let mut a = Engine::<Fp>::new_builtin("ring-swarm", Some("flocking")).unwrap();
    let mut b = Engine::<Fp>::new_builtin("ring-swarm", Some("flocking")).unwrap();
    for _ in 0..50 {
        a.tick();
        b.tick();
    }
    let sa = states_of(&a);
    let sb = states_of(&b);
    assert_eq!(sa.len(), sb.len());
    for i in 0..sa.len() {
        assert_eq!(sa[i].to_bits(), sb[i].to_bits(), "state {} differs", i);
    }
}

#[test]
fn leader_latch_when_paused() {
    // With the leader paused, the first sample is latched and every later
    // query returns it unchanged.
    let mut params = FormationEcbfParams::<Fp>::defaults();
    params.leader_paused = true;
    params.leader = LeaderTrajectory::Circle {
        center: v3(0.0, 0.0, 0.0),
        radius: Fp(6.0),
        omega: Fp(0.2),
    };
    let mut law = FormationEcbf::new(params);
    let first = law.leader_state(Fp(0.25));
    let second = law.leader_state(Fp(17.0));
    let third = law.leader_state(Fp(-3.0));
    for s in [second, third] {
        assert_eq!(first.p.x.0.to_bits(), s.p.x.0.to_bits());
        assert_eq!(first.p.y.0.to_bits(), s.p.y.0.to_bits());
        assert_eq!(first.p.z.0.to_bits(), s.p.z.0.to_bits());
        assert_eq!(first.v.x.0.to_bits(), s.v.x.0.to_bits());
        assert_eq!(first.a.x.0.to_bits(), s.a.x.0.to_bits());
    }
}

#[test]
fn force_is_latched_across_steps() {
    // Setting a force once and stepping k times equals re-setting the same
    // force before every step: the latch is not consumed by a step.
    let config = BodyConfig {
        mass: Fp(2.0),
        state: [Fp(0.0), Fp(0.0), Fp(0.0), Fp(0.2), Fp(0.0), Fp(0.0)],
        drag_coefficient: Fp(0.3),
        trajectory_write: false,
        group: 0,
    };
    let mut once = Simulator::new(&vec![config.clone()], Fp(0.01));
    let mut every = Simulator::new(&vec![config], Fp(0.01));
    once.set_force(0, v3(1.5, -0.5, 0.25));
    for _ in 0..40 {
        every.set_force(0, v3(1.5, -0.5, 0.25));
        every.step();
        once.step();
    }
    let sa = once.state_matrix();
    let sb = every.state_matrix();
    for k in 0..6 {
        assert_eq!(sa[0][k].0.to_bits(), sb[0][k].0.to_bits());
    }
    // The latched force is still visible after stepping.
    let snap = once.body_snapshots();
    assert_eq!(snap[0].force.x.0, 1.5);
    assert_eq!(snap[0].force.y.0, -0.5);
    assert_eq!(snap[0].force.z.0, 0.25);
}

#[test]
fn formation_tracker_converges_to_moving_formation() {
    // Four agents starting on the default formation offsets around the
    // circle leader close in on the moving formation targets.
    let mut params = FormationEcbfParams::<Fp>::defaults();
    params.obstacles = Vec::new();
    params.delta_theta = Fp(0.0);
    params.auto_offsets = false;
    let offsets = [(-3.0, 3.0), (-3.0, -3.0), (3.0, 3.0), (3.0, -3.0)];
    let dt = 1.0 / 60.0;
    let mut configs: Vec<BodyConfig<Fp>> = Vec::new();
    for (ox, oy) in offsets {
        configs.push(BodyConfig {
            mass: Fp(1.0),
            state: [Fp(ox), Fp(oy), Fp(0.0), Fp(0.0), Fp(0.0), Fp(0.0)],
            drag_coefficient: Fp(0.0),
            trajectory_write: false,
            group: 0,
        });
    }
    let mut engine = Engine::new_custom(&configs, Fp(dt), Some("formation-ecbf"), false).unwrap();
    engine.set_formation_ecbf_params(params).unwrap();

    let mean_error = |engine: &Engine<Fp>, t: f64| -> f64 {
        let out: Vec<f64> = engine.state_matrix_flat().iter().map(|s| s.0).collect();
        let angle = 0.2 * t;
        let (px, py) = (6.0 * angle.cos(), 6.0 * angle.sin());
        let mut total = 0.0;
        for (i, (ox, oy)) in offsets.iter().enumerate() {
            let dx = out[6 * i] - (px + ox);
            let dy = out[6 * i + 1] - (py + oy);
            let dz = out[6 * i + 2];
            total += (dx * dx + dy * dy + dz * dz).sqrt();
        }
        total / 4.0
    };

    let mut t = 0.0;
    let start = mean_error(&engine, t);
    for _ in 0..200 {
        engine.tick();
        t += dt;
    }
    let end = mean_error(&engine, t);
    assert!(
        end < start,
        "mean formation error should decrease: start {} end {}",
        start,
        end
    );
}

#[test]
fn safe_flocking_pushes_agent_out_of_safety_disk() {
    // One agent inside a static obstacle's safety radius: the CBF filter
    // drives it outward and, once outside, it does not re-enter.
    let mut params = SafeFlockAlphaParams::<Fp>::defaults();
    params.use_agent_cbf = false;
    params.use_obstacles = true;
    params.use_moving_obstacle_terms = false;
    params.lambda1 = Fp(2.0);
    params.lambda2 = Fp(2.0);
    params.delta_theta = Fp(0.0);
    params.boundary_weight = Fp(0.0);
    params.obstacles = vec![nginphy::ObstaclePoly {
        a2: v3(0.0, 0.0, 0.0),
        a1: v3(0.0, 0.0, 0.0),
        a0: v3(0.0, 0.0, 0.0),
        d: Fp(1.0),
    }];
    let mut configs: Vec<BodyConfig<Fp>> = Vec::new();
    configs.push(BodyConfig {
        mass: Fp(1.0),
        state: [Fp(0.1), Fp(0.0), Fp(0.0), Fp(0.0), Fp(0.0), Fp(0.0)],
        drag_coefficient: Fp(0.0),
        trajectory_write: false,
        group: 0,
    });
    let mut engine =
        Engine::new_custom(&configs, Fp(1.0 / 60.0), Some("safe-flocking-alpha"), false).unwrap();
    engine.set_safe_flocking_alpha_params(params).unwrap();

    let h_of = |engine: &Engine<Fp>| -> f64 {
        let out = states_of(engine);
        out[0] * out[0] + out[1] * out[1] + out[2] * out[2] - 1.0
    };
    let h0 = h_of(&engine);
    assert!(h0 < 0.0);
    let mut escaped_at: Option<usize> = None;
    for step in 0..1200 {
        engine.tick();
        let h = h_of(&engine);
        match escaped_at {
            None => {
                if h >= 0.0 {
                    escaped_at = Some(step);
                }
            }
            Some(_) => {
                assert!(h >= -1e-6, "re-entered the safety disk at step {}: h = {}", step, h);
            }
        }
    }
    assert!(escaped_at.is_some(), "agent never left the safety disk; final h = {}", h_of(&engine));
}

#[test]
fn group_force_targets_only_the_group() {
    let mut configs: Vec<BodyConfig<Fp>> = Vec::new();
    for g in [0usize, 1, 1, 2] {
        configs.push(BodyConfig {
            mass: Fp(1.0),
            state: [Fp(0.0); 6],
            drag_coefficient: Fp(0.0),
            trajectory_write: false,
            group: g,
        });
    }
    let mut sim = Simulator::new(&configs, Fp(0.01));
    sim.set_group_force(1, v3(2.0, 0.0, 0.0));
    let snaps = sim.body_snapshots();
    assert_eq!(snaps[0].force.x.0, 0.0);
    assert_eq!(snaps[1].force.x.0, 2.0);
    assert_eq!(snaps[2].force.x.0, 2.0);
    assert_eq!(snaps[3].force.x.0, 0.0);
    sim.step();
    let out = sim.state_matrix();
    assert_eq!(out[0][3].0, 0.0);
    assert!(out[1][3].0 > 0.0);
    assert_eq!(out[1][3].0.to_bits(), out[2][3].0.to_bits());
    assert_eq!(out[3][3].0, 0.0);
}

#[test]
fn trajectory_records_post_step_states() {
    let config = BodyConfig {
        mass: Fp(1.0),
        state: [Fp(0.0), Fp(0.0), Fp(0.0), Fp(1.0), Fp(0.0), Fp(0.0)],
        drag_coefficient: Fp(0.0),
        trajectory_write: true,
        group: 0,
    };
    let mut sim = Simulator::new(&vec![config], Fp(0.5));
    assert_eq!(sim.trajectory_of(0).unwrap().len(), 0);
    sim.step();
    sim.step();
    let traj = sim.trajectory_of(0).unwrap();
    assert_eq!(traj.len(), 2);
    let out = sim.state_matrix();
    assert_eq!(traj[1].position.x.0.to_bits(), out[0][0].0.to_bits());
    assert_eq!(traj[1].velocity.x.0.to_bits(), out[0][3].0.to_bits());
    assert_eq!(traj[0].time.0, 0.5);
    assert_eq!(traj[1].time.0, 1.0);
}

#[test]
fn flatten_aligns_trajectory_with_plane() {
    // Flattening zeroes the z components and rewrites the newest trajectory
    // sample so records stay snapshots of the tick-boundary state.
    let config = BodyConfig {
        mass: Fp(1.0),
        state: [Fp(0.0), Fp(0.0), Fp(2.0), Fp(0.0), Fp(0.0), Fp(1.0)],
        drag_coefficient: Fp(0.0),
        trajectory_write: true,
        group: 0,
    };
    let mut sim = Simulator::new(&vec![config], Fp(0.25));
    sim.set_force(0, v3(0.0, 0.0, 4.0));
    sim.step();
    {
        let traj = sim.trajectory_of(0).unwrap();
        assert_eq!(traj.len(), 1);
        assert!(traj[0].position.z.0 != 0.0);
    }
    sim.flatten_to_plane();
    let out = sim.state_matrix();
    assert_eq!(out[0][2].0, 0.0);
    assert_eq!(out[0][5].0, 0.0);
    let traj = sim.trajectory_of(0).unwrap();
    assert_eq!(traj.len(), 1);
    assert_eq!(traj[0].position.z.0, 0.0);
    assert_eq!(traj[0].velocity.z.0, 0.0);
    assert_eq!(traj[0].position.x.0.to_bits(), out[0][0].0.to_bits());
    assert_eq!(traj[0].time.0, 0.25);
}

#[test]
fn field_driven_step_follows_the_field() {
    // The field-driven path evaluates the field, not the latched forces:
    // with a field returning a constant force and a conflicting latched
    // force, the motion follows the field and the latch is untouched.
    struct ConstantField;
    impl nginphy::ForceField<Fp> for ConstantField {
        fn force_all(
            &self,
            _time: Fp,
            positions: &Vec<nginphy::V3<Fp>>,
            _velocities: &Vec<nginphy::V3<Fp>>,
        ) -> Vec<nginphy::V3<Fp>> {
            positions.iter().map(|_| v3(-10.0, 0.0, 0.0)).collect()
        }
    }
    let config = BodyConfig {
        mass: Fp(1.0),
        state: [Fp(0.0), Fp(0.0), Fp(0.0), Fp(1.0), Fp(0.0), Fp(0.0)],
        drag_coefficient: Fp(0.0),
        trajectory_write: false,
        group: 0,
    };
    let mut sim = Simulator::new(&vec![config], Fp(0.01));
    sim.set_force(0, v3(999.0, 999.0, 999.0));
    for _ in 0..30 {
        sim.step_with_field(&ConstantField);
    }
    let out = sim.state_matrix();
    assert!((out[0][0].0 - (-0.15)).abs() < 1e-9, "x = {}", out[0][0].0);
    assert!((out[0][3].0 - (-2.0)).abs() < 1e-9, "vx = {}", out[0][3].0);
    let snaps = sim.body_snapshots();
    assert_eq!(snaps[0].force.x.0, 999.0);
}

#[test]
fn point_matches_group_simulator() {
    // A single point stepped directly agrees with the same body inside the
    // group simulator under the same constant force.
    let mut point = nginphy::Point::new(
        Fp(1.0),
        [Fp(0.0), Fp(0.0), Fp(0.0), Fp(1.0), Fp(0.0), Fp(0.0)],
        true,
        Fp(0.0),
    );
    let dt = 0.01;
    for _ in 0..30 {
        point.step(v3(-10.0, 0.0, 0.0), Fp(dt));
    }
    let s = point.state_array();
    assert!((s[0].0 - (-0.15)).abs() < 1e-9, "x = {}", s[0].0);
    assert!((s[3].0 - (-2.0)).abs() < 1e-9, "vx = {}", s[3].0);
    assert_eq!(point.trajectory().len(), 31);
    assert!((point.time().0 - 0.3).abs() < 1e-12);
}
