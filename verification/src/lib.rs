//! Verified core of a swarm simulator: a fixed-step RK4 integrator over a
//! structure-of-arrays body state, pluggable control laws, and a small
//! Dykstra-style QP projector, all parameterised by an abstract scalar so
//! that the data flow is machine-checked while the host supplies the
//! floating-point arithmetic.
#![verifier::loop_isolation(false)]

mod engine;
mod error;
mod flocking;
mod flocking_alpha;
mod formation_ecbf;
mod linalg;
mod model;
mod obstacles;
mod point;
mod qp;
mod safe_flocking_alpha;
mod scalar;
mod sim;
mod strutil;

pub use error::SimError;
pub use sim::BodyConfig;
pub use sim::BodySnapshot;
pub use sim::ForceField;
pub use sim::SimView;
pub use sim::Simulator;
pub use sim::TrajSample;
pub use model::DEMO_COUNT;
pub use model::ParticleModel;
pub use model::configs_from_states;
pub use model::demo_dt;
pub use model::demo_drag;
pub use model::lattice_demo_configs;
pub use model::quadrotor_demo_configs;
pub use model::ring_demo_configs;
pub use point::Point;
pub use obstacles::ObstaclePoly;
pub use obstacles::paper_obstacles;
pub use qp::Halfspace3;
pub use qp::Halfspace4;
pub use qp::project_qp3;
pub use qp::project_qp4;
pub use flocking::FlockParams;
pub use flocking::Flocking;
pub use flocking_alpha::FlockAlphaParams;
pub use flocking_alpha::FlockingAlpha;
pub use safe_flocking_alpha::SafeFlockAlphaParams;
pub use safe_flocking_alpha::SafeFlockingAlpha;
pub use formation_ecbf::EcbfStateView;
pub use formation_ecbf::FormationEcbf;
pub use formation_ecbf::FormationEcbfParams;
pub use formation_ecbf::LeaderSample;
pub use formation_ecbf::LeaderTrajectory;
pub use formation_ecbf::custom_leader_trajectory;
pub use strutil::str_eq;
pub use engine::ALGO_FLOCKING;
pub use engine::ALGO_FLOCKING_ALPHA;
pub use engine::ALGO_FORMATION_ECBF;
pub use engine::ALGO_NONE;
pub use engine::ALGO_SAFE_FLOCKING_ALPHA;
pub use engine::AlgorithmInfo;
pub use engine::Engine;
pub use engine::MODEL_FROM_STATES;
pub use engine::MODEL_LATTICE;
pub use engine::MODEL_QUADROTOR;
pub use engine::MODEL_RING;
pub use engine::ModelInfo;
pub use engine::algorithm_catalog;
pub use engine::algorithms_for_model;
pub use engine::basic_model_list;
pub use engine::builtin_default_algo;
pub use engine::compatible_spec;
pub use engine::model_catalog;
pub use engine::normalize_algorithm_id;
pub use engine::normalize_model_id;
pub use engine::valid_algorithm_id;
pub use engine::valid_model_id;
pub use linalg::V3;
pub use linalg::V4;
pub use scalar::Real;
pub use scalar::ratio;
