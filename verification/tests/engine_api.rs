//! Catalog identifiers, construction errors, parameter-block routing and
//! the flat host views.

use nginphy::{
    BodyConfig, Engine, FlockAlphaParams, FlockParams, FormationEcbfParams, Real,
    SafeFlockAlphaParams, SimError, algorithm_catalog, configs_from_states, model_catalog,
    normalize_algorithm_id, normalize_model_id,
};

#[derive(Clone, Copy, Debug, PartialEq)]
struct Fp(f64);

impl Real for Fp {
    fn plus(self, other: Self) -> Self {
        Fp(self.0 + other.0)
    }
    fn minus(self, other: Self) -> Self {
        Fp(self.0 - other.0)
    }
    fn times(self, other: Self) -> Self {
        Fp(self.0 * other.0)
    }
    fn over(self, other: Self) -> Self {
        Fp(self.0 / other.0)
    }
    fn neg(self) -> Self {
        Fp(-self.0)
    }
    fn sqrt(self) -> Self {
        Fp(self.0.sqrt())
    }
    fn powf(self, exponent: Self) -> Self {
        Fp(self.0.powf(exponent.0))
    }
    fn sin(self) -> Self {
        Fp(self.0.sin())
    }
    fn cos(self) -> Self {
        Fp(self.0.cos())
    }
    fn asin(self) -> Self {
        Fp(self.0.asin())
    }
    fn atan2(self, other: Self) -> Self {
        Fp(self.0.atan2(other.0))
    }
    fn abs(self) -> Self {
        Fp(self.0.abs())
    }
    fn max_of(self, other: Self) -> Self {
        Fp(self.0.max(other.0))
    }
    fn min_of(self, other: Self) -> Self {
        Fp(self.0.min(other.0))
    }
    fn less(self, other: Self) -> bool {
        self.0 < other.0
    }
    fn leq(self, other: Self) -> bool {
        self.0 <= other.0
    }
    fn same(self, other: Self) -> bool {
        self.0 == other.0
    }
    fn finite(self) -> bool {
        self.0.is_finite()
    }
    fn from_int(value: i64) -> Self {
        Fp(value as f64)
    }
    fn from_count(value: usize) -> Self {
        Fp(value as f64)
    }
    fn pi() -> Self {
        Fp(std::f64::consts::PI)
    }
}

#[test]
fn model_catalog_lists_four_models() {
    let models = model_catalog();
    let ids: Vec<&str> = models.iter().map(|m| m.id).collect();
    assert_eq!(ids, vec!["ring-swarm", "lattice-swarm", "quadrotor-swarm", "from-states"]);
    assert_eq!(models[0].default_algorithm, "flocking");
    assert_eq!(models[1].default_algorithm, "flocking");
    assert_eq!(models[2].default_algorithm, "formation-ecbf");
    assert_eq!(models[3].default_algorithm, "flocking");
}

#[test]
fn algorithm_catalog_lists_five_algorithms() {
    let algos = algorithm_catalog();
    let ids: Vec<&str> = algos.iter().map(|a| a.id).collect();
    assert_eq!(
        ids,
        vec!["none", "flocking", "flocking-alpha", "formation-ecbf", "safe-flocking-alpha"]
    );
    for a in &algos {
        let expected: usize = if a.id == "formation-ecbf" { 4 } else { 3 };
        assert_eq!(a.compatible_models.len(), expected, "algorithm {}", a.id);
        assert!(a.compatible_models.contains(&"ring-swarm"));
        assert!(a.compatible_models.contains(&"lattice-swarm"));
        assert!(a.compatible_models.contains(&"from-states"));
    }
    assert!(algos[3].compatible_models.contains(&"quadrotor-swarm"));
}

#[test]
fn algorithms_for_model_filters_by_compatibility() {
    let all = nginphy::algorithms_for_model("ring-swarm");
    assert_eq!(all.len(), 5);
    let all = nginphy::algorithms_for_model("from-states");
    assert_eq!(all.len(), 5);
    let quad = nginphy::algorithms_for_model("quadrotor-swarm");
    assert_eq!(quad.len(), 1);
    assert_eq!(quad[0].id, "formation-ecbf");
    assert_eq!(nginphy::algorithms_for_model("warp-field").len(), 0);
}

#[test]
fn normalize_accepts_catalog_ids_only() {
    assert_eq!(normalize_model_id("ring-swarm"), Some("ring-swarm"));
    assert_eq!(normalize_model_id("lattice-swarm"), Some("lattice-swarm"));
    assert_eq!(normalize_model_id("quadrotor-swarm"), Some("quadrotor-swarm"));
    assert_eq!(normalize_model_id("from-states"), Some("from-states"));
    assert_eq!(normalize_model_id("ring"), None);
    assert_eq!(normalize_model_id(""), None);
    assert_eq!(normalize_algorithm_id("none"), Some("none"));
    assert_eq!(normalize_algorithm_id("flocking"), Some("flocking"));
    assert_eq!(normalize_algorithm_id("flocking-alpha"), Some("flocking-alpha"));
    assert_eq!(normalize_algorithm_id("formation-ecbf"), Some("formation-ecbf"));
    assert_eq!(normalize_algorithm_id("safe-flocking-alpha"), Some("safe-flocking-alpha"));
    assert_eq!(normalize_algorithm_id("NONE"), None);
    assert_eq!(normalize_algorithm_id("flock"), None);
}

#[test]
fn builtin_construction_and_error_kinds() {
    let e = Engine::<Fp>::new_builtin("ring-swarm", None).unwrap();
    assert_eq!(e.len(), 20);
    let e = Engine::<Fp>::new_builtin("lattice-swarm", Some("none")).unwrap();
    assert_eq!(e.len(), 27);
    let e = Engine::<Fp>::new_builtin("quadrotor-swarm", None).unwrap();
    assert_eq!(e.len(), 4);

    assert_eq!(Engine::<Fp>::new_builtin("nonesuch", None).unwrap_err(), SimError::UnknownId);
    assert_eq!(
        Engine::<Fp>::new_builtin("from-states", None).unwrap_err(),
        SimError::UnknownId
    );
    assert_eq!(
        Engine::<Fp>::new_builtin("ring-swarm", Some("warp")).unwrap_err(),
        SimError::UnknownId
    );
    assert_eq!(
        Engine::<Fp>::new_builtin("quadrotor-swarm", Some("flocking")).unwrap_err(),
        SimError::Incompatible
    );
}

#[test]
fn from_states_rejects_bad_shapes() {
    let good: Vec<Fp> = vec![Fp(0.0); 12];
    let engine = Engine::new_from_states(&good, Fp(0.01), None).unwrap();
    assert_eq!(engine.len(), 2);

    let bad: Vec<Fp> = vec![Fp(0.0); 13];
    assert_eq!(
        Engine::new_from_states(&bad, Fp(0.01), None).unwrap_err(),
        SimError::BadShape
    );
    assert_eq!(
        Engine::new_from_states(&good, Fp(0.01), Some("sideways")).unwrap_err(),
        SimError::UnknownId
    );

    let configs = configs_from_states(&good, Fp(0.5)).unwrap();
    assert_eq!(configs.len(), 2);
    assert_eq!(configs[0].drag_coefficient.0, 0.5);
    assert_eq!(configs[0].group, 0);
    assert!(!configs[0].trajectory_write);
    assert_eq!(
        configs_from_states(&bad, Fp(0.0)).unwrap_err(),
        SimError::BadShape
    );
}

#[test]
fn parameter_blocks_are_routed_by_algorithm() {
    let states: Vec<Fp> = vec![Fp(0.0); 6];
    let mut engine = Engine::new_from_states(&states, Fp(0.01), Some("flocking")).unwrap();
    assert!(engine.set_flock_params(FlockParams::defaults()).is_ok());
    assert_eq!(
        engine.set_flock_alpha_params(FlockAlphaParams::defaults()).unwrap_err(),
        SimError::WrongAlgorithm
    );
    assert_eq!(
        engine.set_formation_ecbf_params(FormationEcbfParams::defaults()).unwrap_err(),
        SimError::WrongAlgorithm
    );
    assert_eq!(
        engine.set_safe_flocking_alpha_params(SafeFlockAlphaParams::defaults()).unwrap_err(),
        SimError::WrongAlgorithm
    );

    engine.set_algorithm("flocking-alpha").unwrap();
    assert!(engine.set_flock_alpha_params(FlockAlphaParams::defaults()).is_ok());
    assert_eq!(
        engine.set_flock_params(FlockParams::defaults()).unwrap_err(),
        SimError::WrongAlgorithm
    );
}

#[test]
fn set_algorithm_checks_catalog_and_compatibility() {
    let states: Vec<Fp> = vec![Fp(0.0); 6];
    let mut engine = Engine::new_from_states(&states, Fp(0.01), Some("none")).unwrap();
    assert!(engine.set_algorithm("safe-flocking-alpha").is_ok());
    assert!(engine.set_algorithm("formation-ecbf").is_ok());
    assert_eq!(engine.set_algorithm("gradient").unwrap_err(), SimError::UnknownId);

    let mut quad = Engine::<Fp>::new_builtin("quadrotor-swarm", None).unwrap();
    assert_eq!(quad.set_algorithm("flocking").unwrap_err(), SimError::Incompatible);
    assert!(quad.set_algorithm("formation-ecbf").is_ok());
}

#[test]
fn flat_views_have_documented_shapes() {
    let mut engine = Engine::<Fp>::new_builtin("ring-swarm", Some("flocking")).unwrap();
    let n = engine.len();
    assert_eq!(engine.positions_flat().len(), 3 * n);
    assert_eq!(engine.state_matrix_flat().len(), 6 * n);
    assert_eq!(engine.groups().len(), n);
    // Not the formation tracker: no attitudes.
    assert_eq!(engine.attitudes_flat().len(), 0);
    // Not the safety-filtered law: debug states are the plain state matrix.
    assert_eq!(engine.debug_states_flat().len(), 6 * n);
    let dt = engine.dt();
    assert!((dt.0 - 1.0 / 60.0).abs() < 1e-15);

    engine.set_algorithm("safe-flocking-alpha").unwrap();
    engine.tick();
    assert_eq!(engine.debug_states_flat().len(), 15 * n);

    let mut quad = Engine::<Fp>::new_builtin("quadrotor-swarm", None).unwrap();
    // Before the first tick the tracker has no per-agent state yet.
    assert_eq!(quad.attitudes_flat().len(), 0);
    quad.tick();
    assert_eq!(quad.attitudes_flat().len(), 3 * 4);

    let p = engine.positions_flat();
    let s = engine.state_matrix_flat();
    for i in 0..n {
        assert_eq!(p[3 * i].0.to_bits(), s[6 * i].0.to_bits());
        assert_eq!(p[3 * i + 1].0.to_bits(), s[6 * i + 1].0.to_bits());
        assert_eq!(p[3 * i + 2].0.to_bits(), s[6 * i + 2].0.to_bits());
    }
}

#[test]
fn body_config_builder_defaults() {
    let c = BodyConfig::new(Fp(2.5), [Fp(1.0), Fp(2.0), Fp(3.0), Fp(4.0), Fp(5.0), Fp(6.0)]);
    assert_eq!(c.mass.0, 2.5);
    assert_eq!(c.state[0].0, 1.0);
    assert_eq!(c.state[5].0, 6.0);
    assert_eq!(c.drag_coefficient.0, 0.0);
    assert!(!c.trajectory_write);
    assert_eq!(c.group, 0);
    assert_eq!(nginphy::demo_dt::<Fp>().0, 1.0 / 60.0);
    assert_eq!(nginphy::demo_drag::<Fp>().0, 0.08);
    assert_eq!(nginphy::ratio::<Fp>(1035, 100).0, 10.35);
    assert!(nginphy::str_eq("flocking", "flocking"));
    assert!(!nginphy::str_eq("flocking", "flocking-alpha"));
    assert!(!nginphy::str_eq("", "a"));
}

#[test]
fn point_conversion_keeps_configuration() {
    let p = nginphy::Point::new(
        Fp(1.5),
        [Fp(1.0), Fp(2.0), Fp(3.0), Fp(4.0), Fp(5.0), Fp(6.0)],
        true,
        Fp(0.25),
    );
    let c = p.to_body_config(7);
    assert_eq!(c.mass.0, 1.5);
    assert_eq!(c.drag_coefficient.0, 0.25);
    assert!(c.trajectory_write);
    assert_eq!(c.group, 7);
    assert_eq!(c.state[2].0, 3.0);
    assert_eq!(p.mass().0, 1.5);
    assert_eq!(p.drag_coefficient().0, 0.25);
    assert!(p.trajectory_write());
}

#[test]
fn reset_agent_leaves_kinematics_alone() {
    // Re-zeroing one agent's controller state touches neither the model nor
    // any other algorithm's state; under other laws it is a no-op.
    let mut quad = Engine::<Fp>::new_builtin("quadrotor-swarm", None).unwrap();
    quad.tick();
    let before: Vec<u64> =
        quad.state_matrix_flat().iter().map(|s| s.0.to_bits()).collect();
    quad.reset_agent(1, nginphy::V3 { x: Fp(9.0), y: Fp(9.0), z: Fp(9.0) }, nginphy::V3 {
        x: Fp(0.5),
        y: Fp(0.0),
        z: Fp(0.0),
    });
    quad.reset_agent(99, nginphy::V3 { x: Fp(0.0), y: Fp(0.0), z: Fp(0.0) }, nginphy::V3 {
        x: Fp(0.0),
        y: Fp(0.0),
        z: Fp(0.0),
    });
    let after: Vec<u64> = quad.state_matrix_flat().iter().map(|s| s.0.to_bits()).collect();
    assert_eq!(before, after);

    let states: Vec<Fp> = vec![Fp(1.0); 6];
    let mut plain = Engine::new_from_states(&states, Fp(0.01), Some("none")).unwrap();
    let before: Vec<u64> =
        plain.state_matrix_flat().iter().map(|s| s.0.to_bits()).collect();
    plain.reset_agent(0, nginphy::V3 { x: Fp(0.0), y: Fp(0.0), z: Fp(0.0) }, nginphy::V3 {
        x: Fp(0.0),
        y: Fp(0.0),
        z: Fp(0.0),
    });
    let after: Vec<u64> = plain.state_matrix_flat().iter().map(|s| s.0.to_bits()).collect();
    assert_eq!(before, after);
}

#[test]
fn error_messages_name_each_kind() {
    assert_eq!(SimError::UnknownId.message(), "unknown model or algorithm id");
    assert_eq!(
        SimError::Incompatible.message(),
        "algorithm is not compatible with the current model"
    );
    assert_eq!(SimError::BadShape.message(), "states length must be a multiple of 6");
    assert_eq!(SimError::InvalidParams.message(), "invalid parameters");
    assert_eq!(
        SimError::WrongAlgorithm.message(),
        "current algorithm does not support this parameter block"
    );
}

#[test]
fn demo_scene_generators_have_documented_sizes() {
    assert_eq!(nginphy::ring_demo_configs::<Fp>(20).len(), 20);
    assert_eq!(nginphy::ring_demo_configs::<Fp>(0).len(), 0);
    assert_eq!(nginphy::lattice_demo_configs::<Fp>(3).len(), 27);
    assert_eq!(nginphy::lattice_demo_configs::<Fp>(0).len(), 0);
    assert_eq!(nginphy::quadrotor_demo_configs::<Fp>().len(), 4);
    let obstacles = nginphy::paper_obstacles::<Fp>();
    assert_eq!(obstacles.len(), 6);
    assert_eq!(obstacles[0].a0.x.0, 47.0);
    assert_eq!(obstacles[4].a1.x.0, -0.06);
    assert_eq!(obstacles[4].a2.y.0, 0.001);
}

#[test]
fn mutators_touch_only_their_targets() {
    let states: Vec<Fp> = vec![Fp(0.0); 12];
    let mut engine = Engine::new_from_states(&states, Fp(0.01), Some("none")).unwrap();
    engine.set_position(1, nginphy::V3 { x: Fp(5.0), y: Fp(6.0), z: Fp(7.0) });
    engine.set_velocity(0, nginphy::V3 { x: Fp(-1.0), y: Fp(0.0), z: Fp(0.0) });
    let out = engine.state_matrix_flat();
    assert_eq!(out[0].0, 0.0);
    assert_eq!(out[3].0, -1.0);
    assert_eq!(out[6].0, 5.0);
    assert_eq!(out[7].0, 6.0);
    assert_eq!(out[8].0, 7.0);
    assert_eq!(out[9].0, 0.0);

    engine.set_uniform_force(nginphy::V3 { x: Fp(0.0), y: Fp(2.0), z: Fp(0.0) });
    engine.tick();
    let out = engine.state_matrix_flat();
    assert!(out[4].0 > 0.0);
    assert!(out[10].0 > 0.0);

    engine.set_dt(Fp(0.5));
    assert_eq!(engine.dt().0, 0.5);
}
