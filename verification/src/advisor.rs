//! The optimization advisor: canned notes on how a game can be tuned, an
//! estimate of what that gains, and bindings for games made elsewhere.

use crate::report::{
    flag_entry, section_entry, section_view, text_entry, ReportEntry, ReportValue, ValueModel,
};
use crate::specification::{GameData, GameDataModel};
use crate::text::{alphanumeric_only, keep_alphanumeric, same_text};
use vstd::hash_map::StringHashMap;
use vstd::prelude::*;
use vstd::string::*;

verus! {

/// What the advisor reports for one game: three lists of notes and the
/// estimated gain in hundredths of a percent.
#[derive(Clone, Debug)]
pub struct OptimizationResult {
    pub memory_optimizations: Vec<String>,
    pub performance_improvements: Vec<String>,
    pub ecs_optimizations: Vec<String>,
    pub estimated_performance_gain: u128,
}

/// The view of an [`OptimizationResult`].
pub ghost struct ResultModel {
    pub memory_optimizations: Seq<Seq<char>>,
    pub performance_improvements: Seq<Seq<char>>,
    pub ecs_optimizations: Seq<Seq<char>>,
    pub estimated_performance_gain: nat,
}

impl View for OptimizationResult {
    type V = ResultModel;

    open spec fn view(&self) -> ResultModel {
        ResultModel {
            memory_optimizations: self.memory_optimizations.deep_view(),
            performance_improvements: self.performance_improvements.deep_view(),
            ecs_optimizations: self.ecs_optimizations.deep_view(),
            estimated_performance_gain: self.estimated_performance_gain as nat,
        }
    }
}

impl DeepView for OptimizationResult {
    type V = ResultModel;

    open spec fn deep_view(&self) -> ResultModel {
        self@
    }
}

/// The gain every game starts from, in hundredths of a percent: 25.00.
pub open spec fn base_gain() -> nat {
    2500
}

/// The factor a complexity tier scales the base gain by, in tenths: 1.1
/// for simple, 1.3 for intermediate, 1.5 for advanced, 1.8 for expert and
/// 1.2 for every other tier.
pub open spec fn complexity_multiplier(complexity: Seq<char>) -> nat {
    if complexity == "simple"@ {
        11
    } else if complexity == "intermediate"@ {
        13
    } else if complexity == "advanced"@ {
        15
    } else if complexity == "expert"@ {
        18
    } else {
        12
    }
}

/// The estimated gain in hundredths of a percent: the base gain scaled by
/// the complexity factor, plus 0.05 for each feature.
pub open spec fn estimated_gain(complexity: Seq<char>, feature_count: nat) -> nat {
    base_gain() * complexity_multiplier(complexity) / 10 + 5 * feature_count
}

/// The notes on memory layout.
pub open spec fn memory_notes() -> Seq<Seq<char>> {
    seq![
        "Dense component storage"@,
        "SoA (Structure of Arrays) layout"@,
        "Memory pooling for entities"@,
        "Cache-aligned data structures"@,
    ]
}

/// The notes on execution speed.
pub open spec fn performance_notes() -> Seq<Seq<char>> {
    seq![
        "Parallel system execution"@,
        "SIMD vectorization"@,
        "Branch prediction optimization"@,
        "Zero-cost abstractions"@,
    ]
}

/// The notes on queries and system scheduling.
pub open spec fn ecs_notes() -> Seq<Seq<char>> {
    seq![
        "Query batching"@,
        "System ordering optimization"@,
        "Component archetype optimization"@,
        "Change detection minimization"@,
    ]
}

/// The advice for a game: the three lists of notes and the gain estimated
/// from its complexity tier and the number of its features.
pub open spec fn advice(game: GameDataModel) -> ResultModel {
    ResultModel {
        memory_optimizations: memory_notes(),
        performance_improvements: performance_notes(),
        ecs_optimizations: ecs_notes(),
        estimated_performance_gain: estimated_gain(game.complexity, game.features.len()),
    }
}

/// What is known of how the generated games perform.
pub open spec fn performance_analysis() -> ValueModel {
    ValueModel::Section(
        seq![
            section_entry(
                "ecs_system_analysis"@,
                seq![
                    flag_entry("parallel_systems"@, true),
                    text_entry("memory_efficiency"@, "high"@),
                    text_entry("cache_locality"@, "optimized"@),
                ],
            ),
            section_entry(
                "rendering_analysis"@,
                seq![
                    flag_entry("batch_rendering"@, true),
                    flag_entry("frustum_culling"@, true),
                    text_entry("occlusion_culling"@, "recommended"@),
                ],
            ),
            section_entry(
                "memory_analysis"@,
                seq![
                    text_entry("component_packing"@, "dense"@),
                    text_entry("memory_pools"@, "enabled"@),
                    text_entry("fragmentation_risk"@, "low"@),
                ],
            ),
        ],
    )
}

/// The tuning plan for a game on the Bevy engine.
pub open spec fn bevy_plan() -> ValueModel {
    ValueModel::Section(
        seq![
            section_entry(
                "rust_optimizations"@,
                seq![
                    section_entry(
                        "ecs_systems"@,
                        seq![
                            flag_entry("parallel_execution"@, true),
                            text_entry("system_ordering"@, "optimized"@),
                            flag_entry("query_batching"@, true),
                        ],
                    ),
                    section_entry(
                        "memory_layout"@,
                        seq![
                            text_entry("component_packing"@, "dense"@),
                            flag_entry("cache_alignment"@, true),
                            text_entry("memory_pools"@, "enabled"@),
                        ],
                    ),
                    section_entry(
                        "rendering"@,
                        seq![
                            flag_entry("batch_rendering"@, true),
                            flag_entry("instance_rendering"@, true),
                            flag_entry("frustum_culling"@, true),
                        ],
                    ),
                ],
            ),
            section_entry(
                "performance_metrics"@,
                seq![
                    text_entry("expected_fps_gain"@, "25-40%"@),
                    text_entry("memory_reduction"@, "15-30%"@),
                    text_entry("load_time_improvement"@, "20-35%"@),
                ],
            ),
        ],
    )
}

/// The tuning plan for a game on the Godot engine.
pub open spec fn godot_plan() -> ValueModel {
    ValueModel::Section(
        seq![
            section_entry(
                "rust_optimizations"@,
                seq![
                    flag_entry("gdnative_integration"@, true),
                    flag_entry("critical_path_optimization"@, true),
                    flag_entry("native_performance_nodes"@, true),
                ],
            ),
            section_entry(
                "performance_metrics"@,
                seq![
                    text_entry("script_execution_speedup"@, "200-500%"@),
                    text_entry("physics_optimization"@, "30-50%"@),
                    text_entry("rendering_improvements"@, "10-20%"@),
                ],
            ),
        ],
    )
}

/// The tuning plan for a game on the Arcade engine.
pub open spec fn arcade_plan() -> ValueModel {
    ValueModel::Section(
        seq![
            section_entry(
                "rust_optimizations"@,
                seq![
                    flag_entry("wasm_compilation"@, true),
                    flag_entry("sprite_batching"@, true),
                    text_entry("memory_management"@, "optimized"@),
                ],
            ),
            section_entry(
                "performance_metrics"@,
                seq![
                    text_entry("web_performance_gain"@, "40-60%"@),
                    text_entry("startup_time_reduction"@, "50-70%"@),
                    text_entry("memory_usage_reduction"@, "20-35%"@),
                ],
            ),
        ],
    )
}

/// The tuning plan for a game on any other engine.
pub open spec fn generic_plan() -> ValueModel {
    ValueModel::Section(
        seq![
            section_entry(
                "rust_optimizations"@,
                seq![
                    flag_entry("general_performance"@, true),
                    flag_entry("memory_safety"@, true),
                    flag_entry("zero_cost_abstractions"@, true),
                ],
            ),
        ],
    )
}

/// The tuning plan for a game on `engine`: one each for `bevy`, `godot`
/// and `arcade`, the generic one for every other engine.
pub open spec fn engine_plan(engine: Seq<char>) -> ValueModel {
    if engine == "bevy"@ {
        bevy_plan()
    } else if engine == "godot"@ {
        godot_plan()
    } else if engine == "arcade"@ {
        arcade_plan()
    } else {
        generic_plan()
    }
}

/// Bindings that expose a game called `title`, made for `engine`, as a
/// class named after `identifier`.
pub open spec fn bindings_text(title: Seq<char>, engine: Seq<char>, identifier: Seq<char>) -> Seq<
    char,
> {
    "// Generated Rust bindings for: "@ + title + "\n// Engine: "@ + engine
        + "\n// Auto-generated by AI Game Dev Library\n\nuse pyo3::prelude::*;\n\n#[pyclass]\npub struct "@
        + identifier
        + "Game {\n    title: String,\n    running: bool,\n}\n\n#[pymethods]\nimpl "@
        + identifier
        + "Game {\n    #[new]\n    pub fn new() -> Self {\n        Self {\n            title: \""@
        + title + "\".to_string(),\n            running: false,\n        }\n    }\n    \n"@
        + "    pub fn start(&mut self) -> PyResult<String> {\n        self.running = true;\n"@
        + "        Ok(format!(\"{} started successfully!\", self.title))\n    }\n    \n"@
        + "    pub fn stop(&mut self) -> PyResult<String> {\n        self.running = false;\n"@
        + "        Ok(\"Game stopped\".to_string())\n    }\n    \n"@
        + "    pub fn is_running(&self) -> bool {\n        self.running\n    }\n    \n"@
        + "    #[getter]\n    pub fn title(&self) -> &str {\n        &self.title\n    }\n}\n\n"@
        + "#[pymodule]\nfn "@ + identifier
        + "_game(_py: Python, m: &PyModule) -> PyResult<()> {\n    m.add_class::<"@ + identifier
        + "Game>()?;\n    Ok(())\n}\n"@
}

/// The factor for `complexity`, in tenths.
pub fn multiplier_for(complexity: &str) -> (tenths: u8)
    ensures
        tenths == complexity_multiplier(complexity@),
{
    if same_text(complexity, "simple") {
        11
    } else if same_text(complexity, "intermediate") {
        13
    } else if same_text(complexity, "advanced") {
        15
    } else if same_text(complexity, "expert") {
        18
    } else {
        12
    }
}

/// A section of three entries under `key`.
fn section_of(key: &str, first: ReportEntry, second: ReportEntry, third: ReportEntry) -> (entry:
    ReportEntry)
    ensures
        entry@ == section_entry(key@, seq![first@, second@, third@]),
{
    let entries = vec![first, second, third];
    assert(section_view(entries@) =~= seq![first@, second@, third@]);
    ReportEntry::section(key, entries)
}

/// Bindings for a game called `title`, made for `engine`, with `identifier`
/// in the names of its class and module.
pub fn render_bindings(title: &str, engine: &str, identifier: &str) -> (code: String)
    ensures
        code@ == bindings_text(title@, engine@, identifier@),
{
    let mut code = String::new();
    code.append("// Generated Rust bindings for: ");
    code.append(title);
    code.append("\n// Engine: ");
    code.append(engine);
    code.append(
        "\n// Auto-generated by AI Game Dev Library\n\nuse pyo3::prelude::*;\n\n#[pyclass]\npub struct ",
    );
    code.append(identifier);
    code.append("Game {\n    title: String,\n    running: bool,\n}\n\n#[pymethods]\nimpl ");
    code.append(identifier);
    code.append(
        "Game {\n    #[new]\n    pub fn new() -> Self {\n        Self {\n            title: \"",
    );
    code.append(title);
    code.append("\".to_string(),\n            running: false,\n        }\n    }\n    \n");
    code.append("    pub fn start(&mut self) -> PyResult<String> {\n        self.running = true;\n");
    code.append("        Ok(format!(\"{} started successfully!\", self.title))\n    }\n    \n");
    code.append("    pub fn stop(&mut self) -> PyResult<String> {\n        self.running = false;\n");
    code.append("        Ok(\"Game stopped\".to_string())\n    }\n    \n");
    code.append("    pub fn is_running(&self) -> bool {\n        self.running\n    }\n    \n");
    code.append("    #[getter]\n    pub fn title(&self) -> &str {\n        &self.title\n    }\n}\n\n");
    code.append("#[pymodule]\nfn ");
    code.append(identifier);
    code.append("_game(_py: Python, m: &PyModule) -> PyResult<()> {\n    m.add_class::<");
    code.append(identifier);
    code.append("Game>()?;\n    Ok(())\n}\n");
    code
}

/// The advisor. It remembers the advice it gave, by the title of the game:
/// advising a game again replaces what was remembered for its title.
pub struct RustGameDevBridge {
    optimization_cache: StringHashMap<OptimizationResult>,
}

impl View for RustGameDevBridge {
    type V = Map<Seq<char>, ResultModel>;

    closed spec fn view(&self) -> Map<Seq<char>, ResultModel> {
        self.optimization_cache@.map_values(|advised: OptimizationResult| advised@)
    }
}

impl OptimizationResult {
    /// A copy of the result.
    pub fn copy(&self) -> (twin: OptimizationResult)
        ensures
            twin@ == self@,
    {
        let twin = OptimizationResult {
            memory_optimizations: copy_texts(&self.memory_optimizations),
            performance_improvements: copy_texts(&self.performance_improvements),
            ecs_optimizations: copy_texts(&self.ecs_optimizations),
            estimated_performance_gain: self.estimated_performance_gain,
        };
        twin
    }
}

/// A copy of `texts`.
fn copy_texts(texts: &Vec<String>) -> (twin: Vec<String>)
    ensures
        twin.deep_view() == texts.deep_view(),
{
    let mut twin: Vec<String> = Vec::new();
    let mut i: usize = 0;
    while i < texts.len()
        invariant
            i <= texts.len(),
            twin.len() == i,
            forall|k: int| 0 <= k < i ==> twin.deep_view()[k] == texts.deep_view()[k],
        decreases texts.len() - i,
    {
        twin.push(texts[i].clone());
        i = i + 1;
    }
    assert(twin.deep_view() =~= texts.deep_view());
    twin
}

impl RustGameDevBridge {
    /// An advisor that remembers nothing yet.
    pub fn new() -> (bridge: Self)
        ensures
            bridge@ == Map::<Seq<char>, ResultModel>::empty(),
    {
        let bridge = RustGameDevBridge { optimization_cache: StringHashMap::new() };
        assert(bridge@ =~= Map::<Seq<char>, ResultModel>::empty());
        bridge
    }

    /// Advises `game_data` and remembers the advice under its title, in
    /// place of what was remembered for that title before.
    pub fn optimize_bevy_game(&mut self, game_data: &GameData) -> (advised: OptimizationResult)
        ensures
            advised@ == advice(game_data@),
            final(self)@ == old(self)@.insert(game_data@.title, advice(game_data@)),
    {
        let advised = self.generate_bevy_optimizations(game_data);
        let stored = advised.copy();
        self.optimization_cache.insert(game_data.title.clone(), stored);
        assert(self@ =~= old(self)@.insert(game_data@.title, advice(game_data@)));
        advised
    }

    /// The advice remembered for `title`, if there is any.
    pub fn cached_result(&self, title: &str) -> (found: Option<&OptimizationResult>)
        ensures
            match found {
                Some(result) => self@.contains_key(title@) && self@[title@] == result@,
                None => !self@.contains_key(title@),
            },
    {
        self.optimization_cache.get(title)
    }

    /// The estimated gain of `game_data`, in hundredths of a percent.
    pub fn calculate_performance_gain(&self, game_data: &GameData) -> (gain: u128)
        ensures
            gain == estimated_gain(game_data@.complexity, game_data@.features.len()),
    {
        let scaled: u128 = 2500 * (multiplier_for(game_data.complexity.as_str()) as u128) / 10;
        let bonus: u128 = 5 * (game_data.features.len() as u128);
        scaled + bonus
    }

    /// The advice for `game_data`.
    pub fn generate_bevy_optimizations(&self, game_data: &GameData) -> (advised: OptimizationResult)
        ensures
            advised@ == advice(game_data@),
    {
        let advised = OptimizationResult {
            memory_optimizations: vec![
                "Dense component storage".to_string(),
                "SoA (Structure of Arrays) layout".to_string(),
                "Memory pooling for entities".to_string(),
                "Cache-aligned data structures".to_string(),
            ],
            performance_improvements: vec![
                "Parallel system execution".to_string(),
                "SIMD vectorization".to_string(),
                "Branch prediction optimization".to_string(),
                "Zero-cost abstractions".to_string(),
            ],
            ecs_optimizations: vec![
                "Query batching".to_string(),
                "System ordering optimization".to_string(),
                "Component archetype optimization".to_string(),
                "Change detection minimization".to_string(),
            ],
            estimated_performance_gain: self.calculate_performance_gain(game_data),
        };
        assert(advised@.memory_optimizations =~= memory_notes());
        assert(advised@.performance_improvements =~= performance_notes());
        assert(advised@.ecs_optimizations =~= ecs_notes());
        advised
    }

    /// What is known of how the generated games perform.
    pub fn analyze_performance(&self) -> (analysis: ReportValue)
        ensures
            analysis@ == performance_analysis(),
    {
        let entries = vec![
            section_of(
                "ecs_system_analysis",
                ReportEntry::flag("parallel_systems", true),
                ReportEntry::text("memory_efficiency", "high"),
                ReportEntry::text("cache_locality", "optimized"),
            ),
            section_of(
                "rendering_analysis",
                ReportEntry::flag("batch_rendering", true),
                ReportEntry::flag("frustum_culling", true),
                ReportEntry::text("occlusion_culling", "recommended"),
            ),
            section_of(
                "memory_analysis",
                ReportEntry::text("component_packing", "dense"),
                ReportEntry::text("memory_pools", "enabled"),
                ReportEntry::text("fragmentation_risk", "low"),
            ),
        ];
        assert(section_view(entries@) =~= performance_analysis()->Section_0);
        ReportValue::section(entries)
    }

    /// The tuning plan for a game on the Bevy engine.
    pub fn optimize_bevy_performance(&self, game_data: &GameData) -> (plan: ReportValue)
        ensures
            plan@ == bevy_plan(),
    {
        let entries = vec![
            section_of(
                "rust_optimizations",
                section_of(
                    "ecs_systems",
                    ReportEntry::flag("parallel_execution", true),
                    ReportEntry::text("system_ordering", "optimized"),
                    ReportEntry::flag("query_batching", true),
                ),
                section_of(
                    "memory_layout",
                    ReportEntry::text("component_packing", "dense"),
                    ReportEntry::flag("cache_alignment", true),
                    ReportEntry::text("memory_pools", "enabled"),
                ),
                section_of(
                    "rendering",
                    ReportEntry::flag("batch_rendering", true),
                    ReportEntry::flag("instance_rendering", true),
                    ReportEntry::flag("frustum_culling", true),
                ),
            ),
            section_of(
                "performance_metrics",
                ReportEntry::text("expected_fps_gain", "25-40%"),
                ReportEntry::text("memory_reduction", "15-30%"),
                ReportEntry::text("load_time_improvement", "20-35%"),
            ),
        ];
        assert(section_view(entries@) =~= bevy_plan()->Section_0);
        ReportValue::section(entries)
    }

    /// The tuning plan for a game on the Godot engine.
    pub fn optimize_godot_performance(&self, game_data: &GameData) -> (plan: ReportValue)
        ensures
            plan@ == godot_plan(),
    {
        let entries = vec![
            section_of(
                "rust_optimizations",
                ReportEntry::flag("gdnative_integration", true),
                ReportEntry::flag("critical_path_optimization", true),
                ReportEntry::flag("native_performance_nodes", true),
            ),
            section_of(
                "performance_metrics",
                ReportEntry::text("script_execution_speedup", "200-500%"),
                ReportEntry::text("physics_optimization", "30-50%"),
                ReportEntry::text("rendering_improvements", "10-20%"),
            ),
        ];
        assert(section_view(entries@) =~= godot_plan()->Section_0);
        ReportValue::section(entries)
    }

    /// The tuning plan for a game on the Arcade engine.
    pub fn optimize_arcade_performance(&self, game_data: &GameData) -> (plan: ReportValue)
        ensures
            plan@ == arcade_plan(),
    {
        let entries = vec![
            section_of(
                "rust_optimizations",
                ReportEntry::flag("wasm_compilation", true),
                ReportEntry::flag("sprite_batching", true),
                ReportEntry::text("memory_management", "optimized"),
            ),
            section_of(
                "performance_metrics",
                ReportEntry::text("web_performance_gain", "40-60%"),
                ReportEntry::text("startup_time_reduction", "50-70%"),
                ReportEntry::text("memory_usage_reduction", "20-35%"),
            ),
        ];
        assert(section_view(entries@) =~= arcade_plan()->Section_0);
        ReportValue::section(entries)
    }

    /// The tuning plan for a game on any other engine.
    pub fn generic_optimizations(&self, game_data: &GameData) -> (plan: ReportValue)
        ensures
            plan@ == generic_plan(),
    {
        let entries = vec![
            section_of(
                "rust_optimizations",
                ReportEntry::flag("general_performance", true),
                ReportEntry::flag("memory_safety", true),
                ReportEntry::flag("zero_cost_abstractions", true),
            ),
        ];
        assert(section_view(entries@) =~= generic_plan()->Section_0);
        ReportValue::section(entries)
    }

    /// The tuning plan for `game_data`, chosen by its engine.
    pub fn optimize_game_performance(&self, game_data: &GameData) -> (plan: ReportValue)
        ensures
            plan@ == engine_plan(game_data@.engine),
    {
        let engine = game_data.engine.as_str();
        if same_text(engine, "bevy") {
            self.optimize_bevy_performance(game_data)
        } else if same_text(engine, "godot") {
            self.optimize_godot_performance(game_data)
        } else if same_text(engine, "arcade") {
            self.optimize_arcade_performance(game_data)
        } else {
            self.generic_optimizations(game_data)
        }
    }

    /// Bindings that expose `game_data` to Python.
    pub fn generate_bindings(&self, game_data: &GameData) -> (code: String)
        ensures
            code@ == bindings_text(
                game_data@.title,
                game_data@.engine,
                alphanumeric_only(game_data@.title),
            ),
    {
        self.create_rust_bindings(game_data)
    }

    /// The name of a game as it can stand in an identifier: its alphanumeric
    /// characters.
    pub fn sanitize_name(&self, name: &str) -> (identifier: String)
        ensures
            identifier@ == alphanumeric_only(name@),
    {
        keep_alphanumeric(name)
    }

    /// Bindings for `game_data`: its class and module are named after the
    /// alphanumeric characters of its title.
    pub fn create_rust_bindings(&self, game_data: &GameData) -> (code: String)
        ensures
            code@ == bindings_text(
                game_data@.title,
                game_data@.engine,
                alphanumeric_only(game_data@.title),
            ),
    {
        let identifier = self.sanitize_name(game_data.title.as_str());
        render_bindings(game_data.title.as_str(), game_data.engine.as_str(), identifier.as_str())
    }
}

} // verus!
