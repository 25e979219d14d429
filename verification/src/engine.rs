//! Engine: one particle model plus one control law selected by identifier,
//! driven tick by tick, with the catalog of model and algorithm identifiers
//! and their compatibility rules.

use vstd::prelude::*;
use crate::error::SimError;
use crate::flocking::FlockParams;
use crate::flocking::Flocking;
use crate::flocking_alpha::FlockAlphaParams;
use crate::flocking_alpha::FlockingAlpha;
use crate::formation_ecbf::FormationEcbf;
use crate::formation_ecbf::FormationEcbfParams;
use crate::linalg::V3;
use crate::model::DEMO_COUNT;
use crate::model::ParticleModel;
use crate::model::demo_dt;
use crate::model::lattice_demo_configs;
use crate::model::quadrotor_demo_configs;
use crate::model::ring_demo_configs;
use crate::safe_flocking_alpha::SafeFlockAlphaParams;
use crate::safe_flocking_alpha::SafeFlockingAlpha;
use crate::scalar::Real;
use crate::sim::BodyConfig;
use crate::sim::TrajSample;
use crate::sim::SimView;
use crate::strutil::str_eq;

verus! {

pub const MODEL_RING: &'static str = "ring-swarm";

pub const MODEL_LATTICE: &'static str = "lattice-swarm";

pub const MODEL_QUADROTOR: &'static str = "quadrotor-swarm";

pub const MODEL_FROM_STATES: &'static str = "from-states";

pub const ALGO_NONE: &'static str = "none";

pub const ALGO_FLOCKING: &'static str = "flocking";

pub const ALGO_FLOCKING_ALPHA: &'static str = "flocking-alpha";

pub const ALGO_FORMATION_ECBF: &'static str = "formation-ecbf";

pub const ALGO_SAFE_FLOCKING_ALPHA: &'static str = "safe-flocking-alpha";

/// Whether `id` is one of the four model identifiers.
pub open spec fn valid_model_id(id: Seq<char>) -> bool {
    ||| id == "ring-swarm"@
    ||| id == "lattice-swarm"@
    ||| id == "quadrotor-swarm"@
    ||| id == "from-states"@
}

/// Whether `id` is one of the five algorithm identifiers.
pub open spec fn valid_algorithm_id(id: Seq<char>) -> bool {
    ||| id == "none"@
    ||| id == "flocking"@
    ||| id == "flocking-alpha"@
    ||| id == "formation-ecbf"@
    ||| id == "safe-flocking-alpha"@
}

/// The compatibility matrix: which algorithm may drive which model.
pub open spec fn compatible_spec(algo: Seq<char>, model: Seq<char>) -> bool {
    ||| ((algo == "none"@ || algo == "flocking"@ || algo == "flocking-alpha"@ || algo
        == "safe-flocking-alpha"@) && (model == "ring-swarm"@ || model == "lattice-swarm"@ || model
        == "from-states"@))
    ||| (algo == "formation-ecbf"@ && (model == "ring-swarm"@ || model == "lattice-swarm"@ || model
        == "quadrotor-swarm"@ || model == "from-states"@))
}

/// Whether a compatibility list holds exactly the three basic models.
pub open spec fn basic_model_list(l: Seq<&'static str>) -> bool {
    &&& l.len() == 3
    &&& l[0]@ == "ring-swarm"@
    &&& l[1]@ == "lattice-swarm"@
    &&& l[2]@ == "from-states"@
}

/// The default algorithm of each buildable model.
pub open spec fn builtin_default_algo(model: Seq<char>) -> Seq<char> {
    if model == "quadrotor-swarm"@ {
        "formation-ecbf"@
    } else {
        "flocking"@
    }
}

/// The nine catalog identifiers denote nine different strings.
proof fn lemma_ids_distinct()
    ensures
        "none"@ != "flocking"@,
        "none"@ != "flocking-alpha"@,
        "none"@ != "formation-ecbf"@,
        "none"@ != "safe-flocking-alpha"@,
        "flocking"@ != "flocking-alpha"@,
        "flocking"@ != "formation-ecbf"@,
        "flocking"@ != "safe-flocking-alpha"@,
        "flocking-alpha"@ != "formation-ecbf"@,
        "flocking-alpha"@ != "safe-flocking-alpha"@,
        "formation-ecbf"@ != "safe-flocking-alpha"@,
        "ring-swarm"@ != "lattice-swarm"@,
        "ring-swarm"@ != "quadrotor-swarm"@,
        "ring-swarm"@ != "from-states"@,
        "lattice-swarm"@ != "quadrotor-swarm"@,
        "lattice-swarm"@ != "from-states"@,
        "quadrotor-swarm"@ != "from-states"@,
{
    reveal_strlit("none");
    reveal_strlit("flocking");
    reveal_strlit("flocking-alpha");
    reveal_strlit("formation-ecbf");
    reveal_strlit("safe-flocking-alpha");
    reveal_strlit("ring-swarm");
    reveal_strlit("lattice-swarm");
    reveal_strlit("quadrotor-swarm");
    reveal_strlit("from-states");
    assert("none"@.len() == 4);
    assert("flocking"@.len() == 8);
    assert("flocking-alpha"@.len() == 14);
    assert("formation-ecbf"@.len() == 14);
    assert("safe-flocking-alpha"@.len() == 19);
    assert("ring-swarm"@.len() == 10);
    assert("lattice-swarm"@.len() == 13);
    assert("quadrotor-swarm"@.len() == 15);
    assert("from-states"@.len() == 11);
    assert("flocking-alpha"@[1] != "formation-ecbf"@[1]);
}

/// A catalog entry describing one model.
pub struct ModelInfo {
    pub id: &'static str,
    pub name: &'static str,
    pub description: &'static str,
    pub default_algorithm: &'static str,
}

/// A catalog entry describing one algorithm.
pub struct AlgorithmInfo {
    pub id: &'static str,
    pub name: &'static str,
    pub description: &'static str,
    pub compatible_models: Vec<&'static str>,
}

/// The four models, with their default algorithms.
pub fn model_catalog() -> (out: Vec<ModelInfo>)
    ensures
        out@.len() == 4,
        out@[0].id@ == "ring-swarm"@,
        out@[1].id@ == "lattice-swarm"@,
        out@[2].id@ == "quadrotor-swarm"@,
        out@[3].id@ == "from-states"@,
        out@[0].name@ == "Ring swarm"@,
        out@[1].name@ == "Lattice cloud"@,
        out@[2].name@ == "Quadrotor formation"@,
        out@[3].name@ == "Custom/Clusters"@,
        out@[0].description@ == "Particles on a noisy ring orbit with slight vertical wobble."@,
        out@[1].description@ == "Tight 3x3x3 lattice of particles, good for density tests."@,
        out@[2].description@ == "4-agent quadrotor formation demo (paper defaults)."@,
        out@[3].description@ == "Build model from custom agents or generated clusters."@,
        forall|i: int| 0 <= i < 4 ==> valid_model_id(#[trigger] out@[i].id@),
        forall|i: int|
            0 <= i < 4 ==> #[trigger] out@[i].default_algorithm@ == builtin_default_algo(
                out@[i].id@,
            ),
{
    proof {
        lemma_ids_distinct();
    }
    let mut out: Vec<ModelInfo> = Vec::new();
    out.push(ModelInfo {
        id: MODEL_RING,
        name: "Ring swarm",
        description: "Particles on a noisy ring orbit with slight vertical wobble.",
        default_algorithm: ALGO_FLOCKING,
    });
    out.push(ModelInfo {
        id: MODEL_LATTICE,
        name: "Lattice cloud",
        description: "Tight 3x3x3 lattice of particles, good for density tests.",
        default_algorithm: ALGO_FLOCKING,
    });
    out.push(ModelInfo {
        id: MODEL_QUADROTOR,
        name: "Quadrotor formation",
        description: "4-agent quadrotor formation demo (paper defaults).",
        default_algorithm: ALGO_FORMATION_ECBF,
    });
    out.push(ModelInfo {
        id: MODEL_FROM_STATES,
        name: "Custom/Clusters",
        description: "Build model from custom agents or generated clusters.",
        default_algorithm: ALGO_FLOCKING,
    });
    out
}

/// The five algorithms, each with the models it may drive.
pub fn algorithm_catalog() -> (out: Vec<AlgorithmInfo>)
    ensures
        out@.len() == 5,
        out@[0].id@ == "none"@,
        out@[1].id@ == "flocking"@,
        out@[2].id@ == "flocking-alpha"@,
        out@[3].id@ == "formation-ecbf"@,
        out@[4].id@ == "safe-flocking-alpha"@,
        out@[0].name@ == "No forces"@,
        out@[1].name@ == "Flocking"@,
        out@[2].name@ == "Flocking alpha-lattice"@,
        out@[3].name@ == "Fixed-time formation + ECBF"@,
        out@[4].name@ == "Safe flocking (alpha + CBF-QP)"@,
        out@[0].description@ == "Integrate with zero external forces."@,
        out@[1].description@ == "Cucker-Smale style flocking field with cohesion/alignment/separation."@,
        out@[2].description@ == "Alpha-lattice shaping + velocity consensus (Olfati-Saber style)."@,
        out@[3].description@ == "Fixed-time formation tracking with robust ECBF obstacle avoidance."@,
        out@[4].description@ == "Alpha-lattice nominal flocking filtered by CBF-QP (obstacles + inter-agent)."@,
        forall|i: int, j: int|
            #![trigger out@[i].compatible_models@[j]]
            0 <= i < 5 && 0 <= j < out@[i].compatible_models@.len() ==> compatible_spec(
                out@[i].id@,
                out@[i].compatible_models@[j]@,
            ),
        basic_model_list(out@[0].compatible_models@),
        basic_model_list(out@[1].compatible_models@),
        basic_model_list(out@[2].compatible_models@),
        basic_model_list(out@[4].compatible_models@),
        out@[3].compatible_models@.len() == 4,
        out@[3].compatible_models@[0]@ == "ring-swarm"@,
        out@[3].compatible_models@[1]@ == "lattice-swarm"@,
        out@[3].compatible_models@[2]@ == "quadrotor-swarm"@,
        out@[3].compatible_models@[3]@ == "from-states"@,
{
    let base = || -> (v: Vec<&'static str>)
        ensures
            v@.len() == 3,
            v@[0]@ == "ring-swarm"@,
            v@[1]@ == "lattice-swarm"@,
            v@[2]@ == "from-states"@,
        {
            let mut v: Vec<&'static str> = Vec::new();
            v.push(MODEL_RING);
            v.push(MODEL_LATTICE);
            v.push(MODEL_FROM_STATES);
            v
        };
    let mut ecbf_models: Vec<&'static str> = Vec::new();
    ecbf_models.push(MODEL_RING);
    ecbf_models.push(MODEL_LATTICE);
    ecbf_models.push(MODEL_QUADROTOR);
    ecbf_models.push(MODEL_FROM_STATES);

    let mut out: Vec<AlgorithmInfo> = Vec::new();
    out.push(AlgorithmInfo {
        id: ALGO_NONE,
        name: "No forces",
        description: "Integrate with zero external forces.",
        compatible_models: base(),
    });
    out.push(AlgorithmInfo {
        id: ALGO_FLOCKING,
        name: "Flocking",
        description: "Cucker-Smale style flocking field with cohesion/alignment/separation.",
        compatible_models: base(),
    });
    out.push(AlgorithmInfo {
        id: ALGO_FLOCKING_ALPHA,
        name: "Flocking alpha-lattice",
        description: "Alpha-lattice shaping + velocity consensus (Olfati-Saber style).",
        compatible_models: base(),
    });
    out.push(AlgorithmInfo {
        id: ALGO_FORMATION_ECBF,
        name: "Fixed-time formation + ECBF",
        description: "Fixed-time formation tracking with robust ECBF obstacle avoidance.",
        compatible_models: ecbf_models,
    });
    out.push(AlgorithmInfo {
        id: ALGO_SAFE_FLOCKING_ALPHA,
        name: "Safe flocking (alpha + CBF-QP)",
        description: "Alpha-lattice nominal flocking filtered by CBF-QP (obstacles + inter-agent).",
        compatible_models: base(),
    });
    out
}

/// The catalog entries of the algorithms that may drive `model_id`: all
/// five for the basic models, the formation tracker alone for the
/// quadrotor scene, none for an identifier outside the catalog.
pub fn algorithms_for_model(model_id: &str) -> (out: Vec<AlgorithmInfo>)
    ensures
        forall|k: int|
            0 <= k < out@.len() ==> valid_algorithm_id(#[trigger] out@[k].id@) && compatible_spec(
                out@[k].id@,
                model_id@,
            ),
        (model_id@ == "ring-swarm"@ || model_id@ == "lattice-swarm"@ || model_id@
            == "from-states"@) ==> out@.len() == 5,
        model_id@ == "quadrotor-swarm"@ ==> out@.len() == 1,
        !valid_model_id(model_id@) ==> out@.len() == 0,
{
    proof {
        lemma_ids_distinct();
    }
    let mut cat = algorithm_catalog();
    let ghost orig = cat@;
    let mut out: Vec<AlgorithmInfo> = Vec::new();
    let mut i: usize = 0;
    while i < 5
        invariant
            cat@ =~= orig.subrange(i as int, 5),
            orig.len() == 5,
            i <= 5,
            orig[0].id@ == "none"@,
            orig[1].id@ == "flocking"@,
            orig[2].id@ == "flocking-alpha"@,
            orig[3].id@ == "formation-ecbf"@,
            orig[4].id@ == "safe-flocking-alpha"@,
            forall|k: int|
                0 <= k < out@.len() ==> valid_algorithm_id(#[trigger] out@[k].id@)
                    && compatible_spec(out@[k].id@, model_id@),
            (model_id@ == "ring-swarm"@ || model_id@ == "lattice-swarm"@ || model_id@
                == "from-states"@) ==> out@.len() == i,
            model_id@ == "quadrotor-swarm"@ ==> out@.len() == (if i >= 4 {
                1nat
            } else {
                0nat
            }),
            !valid_model_id(model_id@) ==> out@.len() == 0,
        decreases 5 - i,
    {
        proof {
            lemma_ids_distinct();
        }
        let entry = cat.remove(0);
        let keep = is_compatible(entry.id, model_id);
        if keep {
            out.push(entry);
        }
        i = i + 1;
    }
    out
}

/// The canonical `&'static str` for a model identifier, or `None` for a
/// string outside the catalog.
pub fn normalize_model_id(id: &str) -> (r: Option<&'static str>)
    ensures
        (r is Some) == valid_model_id(id@),
        r is Some ==> r->0@ == id@,
{
    if str_eq(id, MODEL_RING) {
        Some(MODEL_RING)
    } else if str_eq(id, MODEL_LATTICE) {
        Some(MODEL_LATTICE)
    } else if str_eq(id, MODEL_QUADROTOR) {
        Some(MODEL_QUADROTOR)
    } else if str_eq(id, MODEL_FROM_STATES) {
        Some(MODEL_FROM_STATES)
    } else {
        None
    }
}

/// The canonical `&'static str` for an algorithm identifier, or `None` for
/// a string outside the catalog.
pub fn normalize_algorithm_id(id: &str) -> (r: Option<&'static str>)
    ensures
        (r is Some) == valid_algorithm_id(id@),
        r is Some ==> r->0@ == id@,
{
    if str_eq(id, ALGO_NONE) {
        Some(ALGO_NONE)
    } else if str_eq(id, ALGO_FLOCKING) {
        Some(ALGO_FLOCKING)
    } else if str_eq(id, ALGO_FLOCKING_ALPHA) {
        Some(ALGO_FLOCKING_ALPHA)
    } else if str_eq(id, ALGO_FORMATION_ECBF) {
        Some(ALGO_FORMATION_ECBF)
    } else if str_eq(id, ALGO_SAFE_FLOCKING_ALPHA) {
        Some(ALGO_SAFE_FLOCKING_ALPHA)
    } else {
        None
    }
}

/// Whether `algo` may drive `model`, decided over the actual characters.
fn is_compatible(algo: &str, model: &str) -> (r: bool)
    ensures
        r == compatible_spec(algo@, model@),
{
    let basic = str_eq(algo, ALGO_NONE) || str_eq(algo, ALGO_FLOCKING) || str_eq(
        algo,
        ALGO_FLOCKING_ALPHA,
    ) || str_eq(algo, ALGO_SAFE_FLOCKING_ALPHA);
    let basic_model = str_eq(model, MODEL_RING) || str_eq(model, MODEL_LATTICE) || str_eq(
        model,
        MODEL_FROM_STATES,
    );
    if basic && basic_model {
        return true;
    }
    str_eq(algo, ALGO_FORMATION_ECBF) && (basic_model || str_eq(model, MODEL_QUADROTOR))
}

/// The active control law.
#[derive(Debug)]
enum AlgorithmKind<T> {
    NoControl,
    Flocking(Flocking<T>),
    FlockingAlpha(FlockingAlpha<T>),
    FormationEcbf(FormationEcbf<T>),
    SafeFlockingAlpha(SafeFlockingAlpha<T>),
}

/// Build a fresh control law with stock parameters for a normalized
/// algorithm identifier, after checking compatibility with the model.
fn build_algorithm<T: Real>(id: &'static str, model_id: &'static str) -> (r: Result<
    AlgorithmKind<T>,
    SimError,
>)
    requires
        valid_algorithm_id(id@),
    ensures
        (r is Ok) == compatible_spec(id@, model_id@),
        r is Err ==> r->Err_0 == SimError::Incompatible,
        r is Ok ==> algo_matches_id(r->Ok_0, id@) && algo_wf(r->Ok_0) && algo_fresh(r->Ok_0),
{
    if !is_compatible(id, model_id) {
        return Err(SimError::Incompatible);
    }
    if str_eq(id, ALGO_NONE) {
        Ok(AlgorithmKind::NoControl)
    } else if str_eq(id, ALGO_FLOCKING) {
        Ok(AlgorithmKind::Flocking(Flocking::new(FlockParams::defaults())))
    } else if str_eq(id, ALGO_FLOCKING_ALPHA) {
        Ok(AlgorithmKind::FlockingAlpha(FlockingAlpha::new(FlockAlphaParams::defaults())))
    } else if str_eq(id, ALGO_FORMATION_ECBF) {
        Ok(AlgorithmKind::FormationEcbf(FormationEcbf::new(FormationEcbfParams::defaults())))
    } else {
        proof {
            assert(id@ == "safe-flocking-alpha"@);
        }
        Ok(
            AlgorithmKind::SafeFlockingAlpha(
                SafeFlockingAlpha::new(SafeFlockAlphaParams::defaults()),
            ),
        )
    }
}

/// The control law's variant agrees with the algorithm identifier.
spec fn algo_matches_id<T>(algo: AlgorithmKind<T>, id: Seq<char>) -> bool {
    match algo {
        AlgorithmKind::NoControl => id == "none"@,
        AlgorithmKind::Flocking(_) => id == "flocking"@,
        AlgorithmKind::FlockingAlpha(_) => id == "flocking-alpha"@,
        AlgorithmKind::FormationEcbf(_) => id == "formation-ecbf"@,
        AlgorithmKind::SafeFlockingAlpha(_) => id == "safe-flocking-alpha"@,
    }
}

/// The control law has never run: its per-agent state is empty.
spec fn algo_fresh<T: Real>(algo: AlgorithmKind<T>) -> bool {
    match algo {
        AlgorithmKind::FormationEcbf(c) => c.state_n() == 0,
        AlgorithmKind::SafeFlockingAlpha(c) => c.state_n() == 0,
        _ => true,
    }
}

/// The control law's internal arrays are consistent.
spec fn algo_wf<T: Real>(algo: AlgorithmKind<T>) -> bool {
    match algo {
        AlgorithmKind::NoControl => true,
        AlgorithmKind::Flocking(_) => true,
        AlgorithmKind::FlockingAlpha(_) => true,
        AlgorithmKind::FormationEcbf(c) => c.state_wf(),
        AlgorithmKind::SafeFlockingAlpha(c) => c.state_wf(),
    }
}

/// One model driven by one control law.
#[derive(Debug)]
pub struct Engine<T> {
    model_id: &'static str,
    algorithm_id: &'static str,
    model: ParticleModel<T>,
    algorithm: AlgorithmKind<T>,
    plane_2d: bool,
}

impl<T: Real> Engine<T> {
    /// The current model identifier.
    pub closed spec fn model_id_spec(self) -> Seq<char> {
        self.model_id@
    }

    /// The current algorithm identifier.
    pub closed spec fn algorithm_id_spec(self) -> Seq<char> {
        self.algorithm_id@
    }

    /// Whether ticks run in the plane.
    pub closed spec fn plane_2d_spec(self) -> bool {
        self.plane_2d
    }

    /// The particle model.
    pub closed spec fn model_part(self) -> ParticleModel<T> {
        self.model
    }

    /// The abstract state of the particle model.
    pub open spec fn model_view(self) -> SimView<T> {
        self.model_part()@
    }

    /// The same engine with the model replaced.
    pub closed spec fn with_model(self, m: ParticleModel<T>) -> Self {
        Engine { model: m, ..self }
    }

    /// The same engine with the plane flag replaced.
    pub closed spec fn with_plane(self, plane_2d: bool) -> Self {
        Engine { plane_2d, ..self }
    }

    /// The formation tracker, when it is the active law.
    pub closed spec fn formation_law_spec(self) -> Option<FormationEcbf<T>> {
        match self.algorithm {
            AlgorithmKind::FormationEcbf(c) => Some(c),
            _ => None,
        }
    }

    /// Number of agents the formation tracker's state is sized for; zero
    /// under any other algorithm.
    pub closed spec fn ecbf_state_n(self) -> nat {
        match self.algorithm {
            AlgorithmKind::FormationEcbf(c) => c.state_n(),
            _ => 0,
        }
    }

    /// Number of agents the safety-filtered law's state is sized for; zero
    /// under any other algorithm.
    pub closed spec fn safe_state_n(self) -> nat {
        match self.algorithm {
            AlgorithmKind::SafeFlockingAlpha(c) => c.state_n(),
            _ => 0,
        }
    }

    /// The flocking parameter block, when that law is active.
    pub closed spec fn flock_params_spec(self) -> Option<FlockParams<T>> {
        match self.algorithm {
            AlgorithmKind::Flocking(c) => Some(c.params),
            _ => None,
        }
    }

    /// The alpha-lattice parameter block, when that law is active.
    pub closed spec fn flock_alpha_params_spec(self) -> Option<FlockAlphaParams<T>> {
        match self.algorithm {
            AlgorithmKind::FlockingAlpha(c) => Some(c.params),
            _ => None,
        }
    }

    /// The formation-tracker parameter block, when that law is active.
    pub closed spec fn formation_ecbf_params_spec(self) -> Option<FormationEcbfParams<T>> {
        match self.algorithm {
            AlgorithmKind::FormationEcbf(c) => Some(c.params_spec()),
            _ => None,
        }
    }

    /// The safety-filtered parameter block, when that law is active.
    pub closed spec fn safe_flocking_alpha_params_spec(self) -> Option<SafeFlockAlphaParams<T>> {
        match self.algorithm {
            AlgorithmKind::SafeFlockingAlpha(c) => Some(c.params_spec()),
            _ => None,
        }
    }

    /// The engine is consistent: the identifiers are in the catalog and
    /// compatible, the law matches its identifier, and every per-agent
    /// array is sized to the model.
    pub closed spec fn wf(self) -> bool {
        &&& self.model@.wf()
        &&& valid_model_id(self.model_id@)
        &&& valid_algorithm_id(self.algorithm_id@)
        &&& compatible_spec(self.algorithm_id@, self.model_id@)
        &&& algo_matches_id(self.algorithm, self.algorithm_id@)
        &&& algo_wf(self.algorithm)
    }

    /// Build one of the catalog models, with its default algorithm or a
    /// requested one.  `from-states` cannot be built here; a model or
    /// algorithm outside the catalog, and `from-states`, give
    /// [`SimError::UnknownId`]; a requested algorithm the model cannot run
    /// gives [`SimError::Incompatible`].
    pub fn new_builtin(model_id: &str, algorithm_id: Option<&str>) -> (r: Result<Self, SimError>)
        ensures
            (r is Ok) == (valid_model_id(model_id@) && model_id@ != "from-states"@ && (
            match algorithm_id {
                Some(a) => valid_algorithm_id(a@) && compatible_spec(a@, model_id@),
                None => true,
            })),
            r is Err ==> r->Err_0 == (if !valid_model_id(model_id@) || model_id@ == "from-states"@
                || (algorithm_id is Some && !valid_algorithm_id(algorithm_id->0@)) {
                SimError::UnknownId
            } else {
                SimError::Incompatible
            }),
            r is Ok ==> {
                &&& r->Ok_0.wf()
                &&& r->Ok_0.model_id_spec() == model_id@
                &&& r->Ok_0.algorithm_id_spec() == (match algorithm_id {
                    Some(a) => a@,
                    None => builtin_default_algo(model_id@),
                })
                &&& !r->Ok_0.plane_2d_spec()
                &&& r->Ok_0.ecbf_state_n() == 0
                &&& r->Ok_0.safe_state_n() == 0
                &&& r->Ok_0.model_view().time == r->Ok_0.model_view().zero
                &&& (model_id@ == "ring-swarm"@ ==> r->Ok_0.model_view().n() == DEMO_COUNT)
                &&& (model_id@ == "lattice-swarm"@ ==> r->Ok_0.model_view().n() == 27)
                &&& (model_id@ == "quadrotor-swarm"@ ==> r->Ok_0.model_view().n() == 4)
            },
    {
        let model_id = match normalize_model_id(model_id) {
            Some(m) => m,
            None => {
                return Err(SimError::UnknownId);
            },
        };
        let (model, default_algorithm_id) = match build_model::<T>(model_id) {
            Ok(pair) => pair,
            Err(e) => {
                return Err(e);
            },
        };
        let algorithm_id = match algorithm_id {
            Some(id) => match normalize_algorithm_id(id) {
                Some(a) => a,
                None => {
                    return Err(SimError::UnknownId);
                },
            },
            None => default_algorithm_id,
        };
        let algorithm = match build_algorithm::<T>(algorithm_id, model_id) {
            Ok(a) => a,
            Err(e) => {
                return Err(e);
            },
        };
        Ok(Engine { model_id, algorithm_id, model, algorithm, plane_2d: false })
    }

    /// Build an engine from explicit body configurations.  An algorithm
    /// outside the catalog gives [`SimError::UnknownId`]; with none
    /// requested, flocking drives the model.
    pub fn new_custom(
        configs: &Vec<BodyConfig<T>>,
        dt: T,
        algorithm_id: Option<&str>,
        plane_2d: bool,
    ) -> (r: Result<Self, SimError>)
        ensures
            (r is Ok) == (match algorithm_id {
                Some(a) => valid_algorithm_id(a@),
                None => true,
            }),
            r is Err ==> r->Err_0 == SimError::UnknownId,
            r is Ok ==> {
                &&& r->Ok_0.wf()
                &&& r->Ok_0.model_id_spec() == "from-states"@
                &&& r->Ok_0.algorithm_id_spec() == (match algorithm_id {
                    Some(a) => a@,
                    None => "flocking"@,
                })
                &&& r->Ok_0.plane_2d_spec() == plane_2d
                &&& r->Ok_0.ecbf_state_n() == 0
                &&& r->Ok_0.safe_state_n() == 0
                &&& r->Ok_0.model_view().n() == configs@.len()
                &&& r->Ok_0.model_view().dt == dt
                &&& r->Ok_0.model_view().time == r->Ok_0.model_view().zero
                &&& forall|i: int|
                    0 <= i < configs@.len() ==> r->Ok_0.model_view().x[i] == (V3 {
                        x: configs@[i].state@[0],
                        y: configs@[i].state@[1],
                        z: configs@[i].state@[2],
                    })
                &&& forall|i: int|
                    0 <= i < configs@.len() ==> r->Ok_0.model_view().v[i] == (V3 {
                        x: configs@[i].state@[3],
                        y: configs@[i].state@[4],
                        z: configs@[i].state@[5],
                    })
                &&& forall|i: int|
                    0 <= i < configs@.len() ==> r->Ok_0.model_view().mass[i] == configs@[i].mass
                &&& forall|i: int|
                    0 <= i < configs@.len() ==> r->Ok_0.model_view().groups[i] == configs@[i].group
            },
    {
        let algorithm_id = match algorithm_id {
            Some(id) => match normalize_algorithm_id(id) {
                Some(a) => a,
                None => {
                    return Err(SimError::UnknownId);
                },
            },
            None => ALGO_FLOCKING,
        };
        let algorithm = match build_algorithm::<T>(algorithm_id, MODEL_FROM_STATES) {
            Ok(a) => a,
            Err(e) => {
                return Err(e);
            },
        };
        let model = ParticleModel::new(configs, dt);
        Ok(Engine { model_id: MODEL_FROM_STATES, algorithm_id, model, algorithm, plane_2d })
    }

    /// Build an engine from a packed state vector with unit masses and no
    /// drag.  A vector whose length is not a multiple of six gives
    /// [`SimError::BadShape`]; an algorithm outside the catalog gives
    /// [`SimError::UnknownId`].
    pub fn new_from_states(states: &Vec<T>, dt: T, algorithm_id: Option<&str>) -> (r: Result<
        Self,
        SimError,
    >)
        ensures
            (r is Ok) == (states@.len() % 6 == 0 && (match algorithm_id {
                Some(a) => valid_algorithm_id(a@),
                None => true,
            })),
            r is Err ==> r->Err_0 == (if states@.len() % 6 != 0 {
                SimError::BadShape
            } else {
                SimError::UnknownId
            }),
            r is Ok ==> {
                &&& r->Ok_0.wf()
                &&& r->Ok_0.model_id_spec() == "from-states"@
                &&& r->Ok_0.algorithm_id_spec() == (match algorithm_id {
                    Some(a) => a@,
                    None => "flocking"@,
                })
                &&& !r->Ok_0.plane_2d_spec()
                &&& r->Ok_0.ecbf_state_n() == 0
                &&& r->Ok_0.safe_state_n() == 0
                &&& r->Ok_0.model_view().n() == states@.len() / 6
                &&& r->Ok_0.model_view().dt == dt
                &&& r->Ok_0.model_view().time == r->Ok_0.model_view().zero
                &&& forall|i: int|
                    0 <= i < r->Ok_0.model_view().n() ==> r->Ok_0.model_view().x[i] == (V3 {
                        x: states@[6 * i],
                        y: states@[6 * i + 1],
                        z: states@[6 * i + 2],
                    })
                &&& forall|i: int|
                    0 <= i < r->Ok_0.model_view().n() ==> r->Ok_0.model_view().v[i] == (V3 {
                        x: states@[6 * i + 3],
                        y: states@[6 * i + 4],
                        z: states@[6 * i + 5],
                    })
                &&& forall|i: int|
                    0 <= i < r->Ok_0.model_view().n() ==> r->Ok_0.model_view().groups[i] == 0
                &&& forall|i: int|
                    0 <= i < r->Ok_0.model_view().n() ==> r->Ok_0.model_view().traj[i] is None
            },
    {
        let model = match ParticleModel::from_states(states, dt, T::from_int(0)) {
            Ok(m) => m,
            Err(e) => {
                return Err(e);
            },
        };
        let algorithm_id = match algorithm_id {
            Some(id) => match normalize_algorithm_id(id) {
                Some(a) => a,
                None => {
                    return Err(SimError::UnknownId);
                },
            },
            None => ALGO_FLOCKING,
        };
        let algorithm = match build_algorithm::<T>(algorithm_id, MODEL_FROM_STATES) {
            Ok(a) => a,
            Err(e) => {
                return Err(e);
            },
        };
        Ok(Engine { model_id: MODEL_FROM_STATES, algorithm_id, model, algorithm, plane_2d: false })
    }

    /// Number of agents.
    pub fn len(&self) -> (n: usize)
        ensures
            n == self.model_view().n(),
    {
        self.model.len()
    }

    /// Current step size.
    pub fn dt(&self) -> (dt: T)
        ensures
            dt == self.model_view().dt,
    {
        self.model.dt()
    }

    /// One tick: flatten to the plane if enabled, apply the active control
    /// law, advance the integrator one step, flatten again.  Masses, drags,
    /// groups, the step size, the identifiers and the plane flag are
    /// unchanged; with the plane enabled, every position and velocity has a
    /// zero third component at the tick boundary; under `none` the latched
    /// forces are untouched.
    pub fn tick(&mut self)
        requires
            old(self).wf(),
        ensures
            final(self).wf(),
            final(self).model_id_spec() == old(self).model_id_spec(),
            final(self).algorithm_id_spec() == old(self).algorithm_id_spec(),
            final(self).plane_2d_spec() == old(self).plane_2d_spec(),
            final(self).model_view().n() == old(self).model_view().n(),
            final(self).model_view().v.len() == old(self).model_view().v.len(),
            final(self).model_view().forces.len() == old(self).model_view().forces.len(),
            final(self).model_view().mass == old(self).model_view().mass,
            final(self).model_view().drag == old(self).model_view().drag,
            final(self).model_view().groups == old(self).model_view().groups,
            final(self).model_view().dt == old(self).model_view().dt,
            final(self).model_view().zero == old(self).model_view().zero,
            old(self).algorithm_id_spec() == "none"@
                ==> final(self).model_view().forces == old(self).model_view().forces,
            old(self).plane_2d_spec() ==> forall|i: int|
                0 <= i < final(self).model_view().n() ==> {
                    &&& #[trigger] final(self).model_view().x[i].z
                        == final(self).model_view().zero
                    &&& final(self).model_view().v[i].z == final(self).model_view().zero
                },
            old(self).plane_2d_spec() ==> forall|i: int|
                0 <= i < final(self).model_view().n() && (#[trigger] final(self).model_view().traj[i]) is Some
                    && final(self).model_view().traj[i]->0@.len() > 0 ==> {
                    let samples = final(self).model_view().traj[i]->0@;
                    &&& samples[samples.len() - 1].position.z == final(self).model_view().zero
                    &&& samples[samples.len() - 1].velocity.z == final(self).model_view().zero
                },
            final(self).model_view().traj.len() == old(self).model_view().traj.len(),
            forall|i: int|
                0 <= i < old(self).model_view().n() ==> {
                    &&& ((#[trigger] final(self).model_view().traj[i]) is Some) == (old(
                        self,
                    ).model_view().traj[i] is Some)
                    &&& (old(self).model_view().traj[i] is None ==> final(self).model_view().traj[i]
                        == old(self).model_view().traj[i])
                    &&& (old(self).model_view().traj[i] is Some ==> {
                        let before = old(self).model_view().traj[i]->0@;
                        let after = final(self).model_view().traj[i]->0@;
                        &&& after.len() == before.len() + 1
                        &&& after[after.len() - 1] == (TrajSample {
                            position: final(self).model_view().x[i],
                            velocity: final(self).model_view().v[i],
                            time: final(self).model_view().time,
                        })
                        &&& (!old(self).plane_2d_spec() ==> forall|k: int|
                            0 <= k < before.len() ==> after[k] == before[k])
                    })
                },
    {
        proof {
            lemma_ids_distinct();
        }
        let ghost g0 = self.model@;
        if self.plane_2d {
            self.model.flatten_to_plane();
        }
        let ghost g1 = self.model@;
        match &mut self.algorithm {
            AlgorithmKind::NoControl => {},
            AlgorithmKind::Flocking(algo) => {
                algo.apply(&mut self.model, self.plane_2d);
            },
            AlgorithmKind::FlockingAlpha(algo) => {
                algo.apply(&mut self.model, self.plane_2d);
            },
            AlgorithmKind::FormationEcbf(algo) => {
                algo.apply(&mut self.model, self.plane_2d);
            },
            AlgorithmKind::SafeFlockingAlpha(algo) => {
                algo.apply(&mut self.model, self.plane_2d);
            },
        }
        let ghost g2 = self.model@;
        self.model.step();
        let ghost g3 = self.model@;
        if self.plane_2d {
            self.model.flatten_to_plane();
        }
        proof {
            assert(g2.traj == g1.traj);
            assert forall|i: int| 0 <= i < g0.n() implies {
                &&& ((self.model@.traj[i]) is Some) == (g0.traj[i] is Some)
                &&& (g0.traj[i] is None ==> self.model@.traj[i] == g0.traj[i])
                &&& (g0.traj[i] is Some ==> {
                    let before = g0.traj[i]->0@;
                    let after = self.model@.traj[i]->0@;
                    &&& after.len() == before.len() + 1
                    &&& after[after.len() - 1] == (TrajSample {
                        position: self.model@.x[i],
                        velocity: self.model@.v[i],
                        time: self.model@.time,
                    })
                    &&& (!self.plane_2d ==> forall|k: int|
                        0 <= k < before.len() ==> after[k] == before[k])
                })
            } by {
                let t0 = g0.traj[i];
                let t1 = g1.traj[i];
                let t2 = g2.traj[i];
                let t3 = g3.traj[i];
                let t4 = self.model@.traj[i];
                assert(g1.n() == g0.n());
                assert(g2.n() == g1.n());
                assert(g3.n() == g2.n());
                assert(self.model@.n() == g3.n());
                assert(t2 == t1);
                if t0 is Some {
                    assert(t1 is Some);
                    assert(t3 is Some);
                    assert(t3->0@ == t2->0@.push(
                        TrajSample { position: g3.x[i], velocity: g3.v[i], time: g3.time },
                    ));
                    assert(t4 is Some);
                } else {
                    assert(t1 == t0);
                    assert(t3 == t2);
                    assert(t4 == t3);
                }
            }
        }
    }

    /// Advance the integrator one step without running the control law,
    /// flattening before and after when the plane is enabled.
    pub fn step(&mut self)
        requires
            old(self).wf(),
        ensures
            final(self).wf(),
            final(self).model_id_spec() == old(self).model_id_spec(),
            final(self).algorithm_id_spec() == old(self).algorithm_id_spec(),
            final(self).plane_2d_spec() == old(self).plane_2d_spec(),
            final(self).model_view().n() == old(self).model_view().n(),
            final(self).model_view().forces == old(self).model_view().forces,
            final(self).model_view().mass == old(self).model_view().mass,
            final(self).model_view().drag == old(self).model_view().drag,
            final(self).model_view().groups == old(self).model_view().groups,
            final(self).model_view().dt == old(self).model_view().dt,
            final(self).model_view().zero == old(self).model_view().zero,
            old(self).plane_2d_spec() ==> forall|i: int|
                0 <= i < final(self).model_view().n() ==> {
                    &&& #[trigger] final(self).model_view().x[i].z
                        == final(self).model_view().zero
                    &&& final(self).model_view().v[i].z == final(self).model_view().zero
                },
            old(self).plane_2d_spec() ==> forall|i: int|
                0 <= i < final(self).model_view().n() && (#[trigger] final(self).model_view().traj[i]) is Some
                    && final(self).model_view().traj[i]->0@.len() > 0 ==> {
                    let samples = final(self).model_view().traj[i]->0@;
                    &&& samples[samples.len() - 1].position.z == final(self).model_view().zero
                    &&& samples[samples.len() - 1].velocity.z == final(self).model_view().zero
                },
            final(self).model_view().traj.len() == old(self).model_view().traj.len(),
            forall|i: int|
                0 <= i < old(self).model_view().n() ==> {
                    &&& ((#[trigger] final(self).model_view().traj[i]) is Some) == (old(
                        self,
                    ).model_view().traj[i] is Some)
                    &&& (old(self).model_view().traj[i] is None ==> final(self).model_view().traj[i]
                        == old(self).model_view().traj[i])
                    &&& (old(self).model_view().traj[i] is Some ==> {
                        let before = old(self).model_view().traj[i]->0@;
                        let after = final(self).model_view().traj[i]->0@;
                        &&& after.len() == before.len() + 1
                        &&& after[after.len() - 1] == (TrajSample {
                            position: final(self).model_view().x[i],
                            velocity: final(self).model_view().v[i],
                            time: final(self).model_view().time,
                        })
                        &&& (!old(self).plane_2d_spec() ==> forall|k: int|
                            0 <= k < before.len() ==> after[k] == before[k])
                    })
                },
    {
        let ghost g0 = self.model@;
        if self.plane_2d {
            self.model.flatten_to_plane();
        }
        let ghost g1 = self.model@;
        self.model.step();
        let ghost g3 = self.model@;
        if self.plane_2d {
            self.model.flatten_to_plane();
        }
        let ghost g2 = g1;
        proof {
            assert(g2.traj == g1.traj);
            assert forall|i: int| 0 <= i < g0.n() implies {
                &&& ((self.model@.traj[i]) is Some) == (g0.traj[i] is Some)
                &&& (g0.traj[i] is None ==> self.model@.traj[i] == g0.traj[i])
                &&& (g0.traj[i] is Some ==> {
                    let before = g0.traj[i]->0@;
                    let after = self.model@.traj[i]->0@;
                    &&& after.len() == before.len() + 1
                    &&& after[after.len() - 1] == (TrajSample {
                        position: self.model@.x[i],
                        velocity: self.model@.v[i],
                        time: self.model@.time,
                    })
                    &&& (!self.plane_2d ==> forall|k: int|
                        0 <= k < before.len() ==> after[k] == before[k])
                })
            } by {
                let t0 = g0.traj[i];
                let t1 = g1.traj[i];
                let t2 = g2.traj[i];
                let t3 = g3.traj[i];
                let t4 = self.model@.traj[i];
                assert(g1.n() == g0.n());
                assert(g2.n() == g1.n());
                assert(g3.n() == g2.n());
                assert(self.model@.n() == g3.n());
                assert(t2 == t1);
                if t0 is Some {
                    assert(t1 is Some);
                    assert(t3 is Some);
                    assert(t3->0@ == t2->0@.push(
                        TrajSample { position: g3.x[i], velocity: g3.v[i], time: g3.time },
                    ));
                    assert(t4 is Some);
                } else {
                    assert(t1 == t0);
                    assert(t3 == t2);
                    assert(t4 == t3);
                }
            }
        }
    }

    /// The positions as a flat vector, three values per agent.
    pub fn positions_flat(&self) -> (out: Vec<T>)
        requires
            self.wf(),
        ensures
            out@.len() == 3 * self.model_view().n(),
            forall|i: int|
                0 <= i < self.model_view().n() ==> {
                    &&& out@[3 * i] == self.model_view().x[i].x
                    &&& out@[3 * i + 1] == self.model_view().x[i].y
                    &&& out@[3 * i + 2] == self.model_view().x[i].z
                },
    {
        let n = self.model.len();
        let positions = self.model.positions();
        let mut out: Vec<T> = Vec::new();
        for i in 0..n
            invariant
                positions@.len() == n,
                positions@ == self.model_view().x,
                out@.len() == 3 * i,
                forall|k: int|
                    0 <= k < i ==> {
                        &&& out@[3 * k] == self.model_view().x[k].x
                        &&& out@[3 * k + 1] == self.model_view().x[k].y
                        &&& out@[3 * k + 2] == self.model_view().x[k].z
                    },
        {
            let p = positions[i];
            out.push(p.x);
            out.push(p.y);
            out.push(p.z);
        }
        out
    }

    /// The full state as a flat vector, six values per agent.
    pub fn state_matrix_flat(&self) -> (out: Vec<T>)
        requires
            self.wf(),
        ensures
            out@.len() == 6 * self.model_view().n(),
            forall|i: int|
                0 <= i < self.model_view().n() ==> {
                    &&& out@[6 * i] == self.model_view().x[i].x
                    &&& out@[6 * i + 1] == self.model_view().x[i].y
                    &&& out@[6 * i + 2] == self.model_view().x[i].z
                    &&& out@[6 * i + 3] == self.model_view().v[i].x
                    &&& out@[6 * i + 4] == self.model_view().v[i].y
                    &&& out@[6 * i + 5] == self.model_view().v[i].z
                },
    {
        let n = self.model.len();
        let positions = self.model.positions();
        let velocities = self.model.velocities();
        let mut out: Vec<T> = Vec::new();
        for i in 0..n
            invariant
                positions@.len() == n,
                velocities@.len() == n,
                positions@ == self.model_view().x,
                velocities@ == self.model_view().v,
                out@.len() == 6 * i,
                forall|k: int|
                    0 <= k < i ==> {
                        &&& out@[6 * k] == self.model_view().x[k].x
                        &&& out@[6 * k + 1] == self.model_view().x[k].y
                        &&& out@[6 * k + 2] == self.model_view().x[k].z
                        &&& out@[6 * k + 3] == self.model_view().v[k].x
                        &&& out@[6 * k + 4] == self.model_view().v[k].y
                        &&& out@[6 * k + 5] == self.model_view().v[k].z
                    },
        {
            let p = positions[i];
            let v = velocities[i];
            out.push(p.x);
            out.push(p.y);
            out.push(p.z);
            out.push(v.x);
            out.push(v.y);
            out.push(v.z);
        }
        out
    }

    /// The group tags, one per agent, narrowed for the host.
    pub fn groups(&self) -> (out: Vec<u32>)
        requires
            self.wf(),
        ensures
            out@.len() == self.model_view().n(),
            forall|i: int|
                0 <= i < self.model_view().n() && self.model_view().groups[i] <= u32::MAX
                    ==> out@[i] == self.model_view().groups[i] as u32,
    {
        let n = self.model.len();
        let groups = self.model.groups();
        let mut out: Vec<u32> = Vec::new();
        for i in 0..n
            invariant
                groups@.len() == n,
                groups@ == self.model_view().groups,
                out@.len() == i,
                forall|k: int|
                    0 <= k < i && self.model_view().groups[k] <= u32::MAX ==> out@[k]
                        == self.model_view().groups[k] as u32,
        {
            #[verifier::truncate]
            let g = groups[i] as u32;
            out.push(g);
        }
        out
    }

    /// Enable or disable plane ticking; nothing else changes.
    pub fn set_plane_2d(&mut self, enabled: bool)
        ensures
            *final(self) == old(self).with_plane(enabled),
    {
        self.plane_2d = enabled;
    }

    /// Switch the control law, rebuilding it with stock parameters.  An
    /// identifier outside the catalog gives [`SimError::UnknownId`]; one
    /// the current model cannot run gives [`SimError::Incompatible`];
    /// either way the engine is untouched.
    pub fn set_algorithm(&mut self, algorithm_id: &str) -> (r: Result<(), SimError>)
        requires
            old(self).wf(),
        ensures
            final(self).wf(),
            (r is Ok) == (valid_algorithm_id(algorithm_id@) && compatible_spec(
                algorithm_id@,
                old(self).model_id_spec(),
            )),
            r is Err ==> {
                &&& *final(self) == *old(self)
                &&& r->Err_0 == (if !valid_algorithm_id(algorithm_id@) {
                    SimError::UnknownId
                } else {
                    SimError::Incompatible
                })
            },
            r is Ok ==> {
                &&& final(self).algorithm_id_spec() == algorithm_id@
                &&& final(self).model_id_spec() == old(self).model_id_spec()
                &&& final(self).plane_2d_spec() == old(self).plane_2d_spec()
                &&& final(self).model_part() == old(self).model_part()
                &&& final(self).ecbf_state_n() == 0
                &&& final(self).safe_state_n() == 0
            },
    {
        let algorithm_id = match normalize_algorithm_id(algorithm_id) {
            Some(a) => a,
            None => {
                return Err(SimError::UnknownId);
            },
        };
        let algorithm = match build_algorithm::<T>(algorithm_id, self.model_id) {
            Ok(a) => a,
            Err(e) => {
                return Err(e);
            },
        };
        self.algorithm = algorithm;
        self.algorithm_id = algorithm_id;
        Ok(())
    }

    /// Overwrite one agent's position.
    pub fn set_position(&mut self, index: usize, pos: V3<T>)
        requires
            old(self).wf(),
            index < old(self).model_view().n(),
        ensures
            final(self).wf(),
            *final(self) == old(self).with_model(final(self).model_part()),
            final(self).model_view() == old(self).model_view().with_kinematics(
                old(self).model_view().x.update(index as int, pos),
                old(self).model_view().v,
            ),
    {
        self.model.set_position(index, pos);
    }

    /// Overwrite one agent's velocity.
    pub fn set_velocity(&mut self, index: usize, vel: V3<T>)
        requires
            old(self).wf(),
            index < old(self).model_view().n(),
        ensures
            final(self).wf(),
            *final(self) == old(self).with_model(final(self).model_part()),
            final(self).model_view() == old(self).model_view().with_kinematics(
                old(self).model_view().x,
                old(self).model_view().v.update(index as int, vel),
            ),
    {
        self.model.set_velocity(index, vel);
    }

    /// Latch an external force on one agent.  The value is used by all
    /// four stages of every following step until overwritten.
    pub fn set_force(&mut self, index: usize, f: V3<T>)
        requires
            old(self).wf(),
            index < old(self).model_view().n(),
        ensures
            final(self).wf(),
            *final(self) == old(self).with_model(final(self).model_part()),
            final(self).model_view() == old(self).model_view().with_forces(
                old(self).model_view().forces.update(index as int, f),
            ),
    {
        self.model.set_force(index, f);
    }

    /// Latch the same force on every agent.
    pub fn set_uniform_force(&mut self, f: V3<T>)
        requires
            old(self).wf(),
        ensures
            final(self).wf(),
            *final(self) == old(self).with_model(final(self).model_part()),
            final(self).model_view() == old(self).model_view().with_forces(
                final(self).model_view().forces,
            ),
            final(self).model_view().forces.len() == old(self).model_view().forces.len(),
            forall|i: int|
                0 <= i < old(self).model_view().n() ==> final(self).model_view().forces[i] == f,
    {
        self.model.set_uniform_force(f);
    }

    /// Latch `f` on every agent in the given group; every other agent's
    /// force is unchanged.
    pub fn set_group_force(&mut self, group: usize, f: V3<T>)
        requires
            old(self).wf(),
        ensures
            final(self).wf(),
            *final(self) == old(self).with_model(final(self).model_part()),
            final(self).model_view() == old(self).model_view().with_forces(
                final(self).model_view().forces,
            ),
            final(self).model_view().forces.len() == old(self).model_view().forces.len(),
            forall|i: int|
                0 <= i < old(self).model_view().n() ==> final(self).model_view().forces[i] == (
                if old(self).model_view().groups[i] == group {
                    f
                } else {
                    old(self).model_view().forces[i]
                }),
    {
        self.model.set_group_force(group, f);
    }

    /// Replace the step size.
    pub fn set_dt(&mut self, dt: T)
        requires
            old(self).wf(),
        ensures
            final(self).wf(),
            *final(self) == old(self).with_model(final(self).model_part()),
            final(self).model_view() == old(self).model_view().with_dt(dt),
    {
        self.model.set_dt(dt);
    }

    /// Replace the flocking parameter block; rejected with
    /// [`SimError::WrongAlgorithm`], leaving everything untouched, unless
    /// that law is active.
    pub fn set_flock_params(&mut self, params: FlockParams<T>) -> (r: Result<(), SimError>)
        requires
            old(self).wf(),
        ensures
            final(self).wf(),
            (r is Ok) == (old(self).algorithm_id_spec() == "flocking"@),
            r is Err ==> *final(self) == *old(self) && r->Err_0 == SimError::WrongAlgorithm,
            r is Ok ==> {
                &&& final(self).flock_params_spec() == Some(params)
                &&& final(self).model_part() == old(self).model_part()
                &&& final(self).algorithm_id_spec() == old(self).algorithm_id_spec()
                &&& final(self).model_id_spec() == old(self).model_id_spec()
                &&& final(self).plane_2d_spec() == old(self).plane_2d_spec()
            },
    {
        proof {
            lemma_ids_distinct();
        }
        match &mut self.algorithm {
            AlgorithmKind::Flocking(algo) => {
                algo.params = params;
                Ok(())
            },
            _ => Err(SimError::WrongAlgorithm),
        }
    }

    /// Replace the alpha-lattice parameter block; rejected with
    /// [`SimError::WrongAlgorithm`] unless that law is active.
    pub fn set_flock_alpha_params(&mut self, params: FlockAlphaParams<T>) -> (r: Result<
        (),
        SimError,
    >)
        requires
            old(self).wf(),
        ensures
            final(self).wf(),
            (r is Ok) == (old(self).algorithm_id_spec() == "flocking-alpha"@),
            r is Err ==> *final(self) == *old(self) && r->Err_0 == SimError::WrongAlgorithm,
            r is Ok ==> {
                &&& final(self).flock_alpha_params_spec() == Some(params)
                &&& final(self).model_part() == old(self).model_part()
                &&& final(self).algorithm_id_spec() == old(self).algorithm_id_spec()
                &&& final(self).model_id_spec() == old(self).model_id_spec()
                &&& final(self).plane_2d_spec() == old(self).plane_2d_spec()
            },
    {
        proof {
            lemma_ids_distinct();
        }
        match &mut self.algorithm {
            AlgorithmKind::FlockingAlpha(algo) => {
                algo.params = params;
                Ok(())
            },
            _ => Err(SimError::WrongAlgorithm),
        }
    }

    /// Replace the formation-tracker parameter block; rejected with
    /// [`SimError::WrongAlgorithm`] unless that law is active.
    pub fn set_formation_ecbf_params(&mut self, params: FormationEcbfParams<T>) -> (r: Result<
        (),
        SimError,
    >)
        requires
            old(self).wf(),
        ensures
            final(self).wf(),
            (r is Ok) == (old(self).algorithm_id_spec() == "formation-ecbf"@),
            r is Err ==> *final(self) == *old(self) && r->Err_0 == SimError::WrongAlgorithm,
            r is Ok ==> {
                &&& final(self).formation_ecbf_params_spec() == Some(params)
                &&& final(self).model_part() == old(self).model_part()
                &&& final(self).algorithm_id_spec() == old(self).algorithm_id_spec()
                &&& final(self).model_id_spec() == old(self).model_id_spec()
                &&& final(self).plane_2d_spec() == old(self).plane_2d_spec()
            },
    {
        proof {
            lemma_ids_distinct();
        }
        match &mut self.algorithm {
            AlgorithmKind::FormationEcbf(algo) => {
                algo.set_params(params);
                Ok(())
            },
            _ => Err(SimError::WrongAlgorithm),
        }
    }

    /// Replace the safety-filtered parameter block; rejected with
    /// [`SimError::WrongAlgorithm`] unless that law is active.
    pub fn set_safe_flocking_alpha_params(&mut self, params: SafeFlockAlphaParams<T>) -> (r: Result<
        (),
        SimError,
    >)
        requires
            old(self).wf(),
        ensures
            final(self).wf(),
            (r is Ok) == (old(self).algorithm_id_spec() == "safe-flocking-alpha"@),
            r is Err ==> *final(self) == *old(self) && r->Err_0 == SimError::WrongAlgorithm,
            r is Ok ==> {
                &&& final(self).safe_flocking_alpha_params_spec() == Some(params)
                &&& final(self).model_part() == old(self).model_part()
                &&& final(self).algorithm_id_spec() == old(self).algorithm_id_spec()
                &&& final(self).model_id_spec() == old(self).model_id_spec()
                &&& final(self).plane_2d_spec() == old(self).plane_2d_spec()
            },
    {
        proof {
            lemma_ids_distinct();
        }
        match &mut self.algorithm {
            AlgorithmKind::SafeFlockingAlpha(algo) => {
                algo.set_params(params);
                Ok(())
            },
            _ => Err(SimError::WrongAlgorithm),
        }
    }

    /// The recorded attitudes of the formation tracker, three values per
    /// agent; empty under every other algorithm.
    pub fn attitudes_flat(&self) -> (out: Vec<T>)
        requires
            self.wf(),
        ensures
            self.algorithm_id_spec() == "formation-ecbf"@ ==> out@.len() == 3
                * self.ecbf_state_n(),
            self.algorithm_id_spec() != "formation-ecbf"@ ==> out@.len() == 0,
    {
        proof {
            lemma_ids_distinct();
        }
        match &self.algorithm {
            AlgorithmKind::FormationEcbf(algo) => algo.attitudes_flat(),
            _ => Vec::new(),
        }
    }

    /// Re-zero the formation tracker's per-agent state for one agent, as
    /// [`FormationEcbf::agent_reset`] describes; a no-op under every other
    /// algorithm, and for an index beyond the tracker's state.  The model
    /// is untouched.
    pub fn reset_agent(&mut self, index: usize, pos: V3<T>, vel: V3<T>)
        requires
            old(self).wf(),
        ensures
            final(self).wf(),
            final(self).model_part() == old(self).model_part(),
            final(self).model_id_spec() == old(self).model_id_spec(),
            final(self).algorithm_id_spec() == old(self).algorithm_id_spec(),
            final(self).plane_2d_spec() == old(self).plane_2d_spec(),
            old(self).formation_law_spec() is None ==> *final(self) == *old(self),
            old(self).formation_law_spec() is Some ==> {
                &&& final(self).formation_law_spec() is Some
                &&& (index >= old(self).ecbf_state_n() ==> *final(self) == *old(self))
                &&& (index < old(self).ecbf_state_n() ==> FormationEcbf::agent_reset(
                    old(self).formation_law_spec()->0,
                    final(self).formation_law_spec()->0,
                    index as int,
                    vel,
                ))
            },
    {
        match &mut self.algorithm {
            AlgorithmKind::FormationEcbf(algo) => {
                algo.reset_agent(index, pos, vel);
            },
            _ => {},
        }
    }

    /// Per-agent debug values for the safety-filtered law: six state values
    /// and nine filter values per agent.  Under every other algorithm the
    /// plain state matrix; with a debug buffer not yet sized to the model
    /// (before the first tick) the filter values are zero-filled.
    pub fn debug_states_flat(&self) -> (out: Vec<T>)
        requires
            self.wf(),
        ensures
            self.algorithm_id_spec() == "safe-flocking-alpha"@ && self.model_view().n() > 0
                ==> out@.len() == 15 * self.model_view().n(),
            self.algorithm_id_spec() == "safe-flocking-alpha"@ && self.model_view().n() == 0
                ==> out@.len() == 0,
            self.algorithm_id_spec() != "safe-flocking-alpha"@ ==> out@.len() == 6
                * self.model_view().n(),
    {
        proof {
            lemma_ids_distinct();
        }
        match &self.algorithm {
            AlgorithmKind::SafeFlockingAlpha(algo) => {
                let n = self.model.len();
                if n == 0 {
                    return Vec::new();
                }
                let states = self.state_matrix_flat();
                let dbg = algo.debug_flat();
                // Before the first tick the filter state may not be sized
                // for the model yet; report zeros instead of misreading it.
                let dbg_ok = dbg.len() / 9 == n && dbg.len() % 9 == 0;
                let sl = states.len();
                proof {
                    assert(sl == 6 * n);
                }
                let dl = dbg.len();
                let zero = T::from_int(0);
                let mut out: Vec<T> = Vec::new();
                for i in 0..n
                    invariant
                        states@.len() == 6 * n,
                        6 * n <= usize::MAX,
                        dbg_ok ==> dbg@.len() == 9 * n && 9 * n <= usize::MAX,
                        out@.len() == 15 * i,
                {
                    let sbase = i * 6;
                    out.push(states[sbase]);
                    out.push(states[sbase + 1]);
                    out.push(states[sbase + 2]);
                    out.push(states[sbase + 3]);
                    out.push(states[sbase + 4]);
                    out.push(states[sbase + 5]);
                    if dbg_ok {
                        let base = i * 9;
                        out.push(dbg[base]);
                        out.push(dbg[base + 1]);
                        out.push(dbg[base + 2]);
                        out.push(dbg[base + 3]);
                        out.push(dbg[base + 4]);
                        out.push(dbg[base + 5]);
                        out.push(dbg[base + 6]);
                        out.push(dbg[base + 7]);
                        out.push(dbg[base + 8]);
                    } else {
                        let mut extra: usize = 0;
                        while extra < 9
                            invariant
                                extra <= 9,
                                out@.len() == 15 * i + 6 + extra,
                            decreases 9 - extra,
                        {
                            out.push(zero);
                            extra = extra + 1;
                        }
                    }
                }
                out
            },
            _ => self.state_matrix_flat(),
        }
    }
}

/// Build one of the catalog's demo scenes, with its default algorithm
/// identifier.  `from-states` has no demo scene and is rejected.
fn build_model<T: Real>(model_id: &'static str) -> (r: Result<
    (ParticleModel<T>, &'static str),
    SimError,
>)
    requires
        valid_model_id(model_id@),
    ensures
        (r is Ok) == (model_id@ != "from-states"@),
        r is Err ==> r->Err_0 == SimError::UnknownId,
        r is Ok ==> {
            &&& r->Ok_0.0@.wf()
            &&& r->Ok_0.0@.time == r->Ok_0.0@.zero
            &&& r->Ok_0.1@ == builtin_default_algo(model_id@)
            &&& valid_algorithm_id(r->Ok_0.1@)
            &&& compatible_spec(r->Ok_0.1@, model_id@)
            &&& (model_id@ == "ring-swarm"@ ==> r->Ok_0.0@.n() == DEMO_COUNT)
            &&& (model_id@ == "lattice-swarm"@ ==> r->Ok_0.0@.n() == 27)
            &&& (model_id@ == "quadrotor-swarm"@ ==> r->Ok_0.0@.n() == 4)
        },
{
    proof {
        lemma_ids_distinct();
    }
    if str_eq(model_id, MODEL_RING) {
        let configs = ring_demo_configs::<T>(DEMO_COUNT);
        let model = ParticleModel::new(&configs, demo_dt::<T>());
        Ok((model, ALGO_FLOCKING))
    } else if str_eq(model_id, MODEL_LATTICE) {
        let configs = lattice_demo_configs::<T>(3);
        let model = ParticleModel::new(&configs, demo_dt::<T>());
        Ok((model, ALGO_FLOCKING))
    } else if str_eq(model_id, MODEL_QUADROTOR) {
        let configs = quadrotor_demo_configs::<T>();
        let model = ParticleModel::new(&configs, demo_dt::<T>());
        Ok((model, ALGO_FORMATION_ECBF))
    } else {
        Err(SimError::UnknownId)
    }
}

} // verus!
