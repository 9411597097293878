use bevy_game_dev::advisor::{multiplier_for, render_bindings, RustGameDevBridge};
use bevy_game_dev::report::{ReportEntry, ReportValue};
use bevy_game_dev::specification::GameData;

fn game(title: &str, engine: &str, complexity: &str, feature_count: usize) -> GameData {
    GameData {
        title: title.to_string(),
        engine: engine.to_string(),
        complexity: complexity.to_string(),
        features: (0..feature_count).map(|i| format!("feature_{}", i)).collect(),
    }
}

fn percent(hundredths: u128) -> f32 {
    hundredths as f32 / 100.0
}

fn keys(entries: &[ReportEntry]) -> Vec<&str> {
    entries.iter().map(|e| e.key.as_str()).collect()
}

fn entries_of(value: &ReportValue) -> &[ReportEntry] {
    match value {
        ReportValue::Section(entries) => entries,
        other => panic!("not a section: {:?}", other),
    }
}

fn flag_of(value: &ReportValue) -> bool {
    match value {
        ReportValue::Flag(on) => *on,
        other => panic!("not a flag: {:?}", other),
    }
}

fn text_of(value: &ReportValue) -> &str {
    match value {
        ReportValue::Text(text) => text,
        other => panic!("not a text: {:?}", other),
    }
}

#[test]
fn advanced_game_with_four_features_gains_37_7_percent() {
    let bridge = RustGameDevBridge::new();
    let gain = bridge.calculate_performance_gain(&game("Demo", "bevy", "advanced", 4));
    assert_eq!(gain, 3770);
    assert!((percent(gain) - (25.0 * 1.5 + 0.05 * 4.0)).abs() < 1e-4);
    assert!((percent(gain) - 37.7).abs() < 1e-4);
}

#[test]
fn every_tier_has_its_multiplier() {
    assert_eq!(multiplier_for("simple"), 11);
    assert_eq!(multiplier_for("intermediate"), 13);
    assert_eq!(multiplier_for("advanced"), 15);
    assert_eq!(multiplier_for("expert"), 18);
    assert_eq!(multiplier_for("default"), 12);
    assert_eq!(multiplier_for("Advanced"), 12);
    assert_eq!(multiplier_for(""), 12);
}

#[test]
fn gain_follows_the_formula() {
    let bridge = RustGameDevBridge::new();
    assert_eq!(bridge.calculate_performance_gain(&game("a", "bevy", "simple", 0)), 2750);
    assert_eq!(bridge.calculate_performance_gain(&game("a", "bevy", "intermediate", 1)), 3255);
    assert_eq!(bridge.calculate_performance_gain(&game("a", "bevy", "expert", 10)), 4550);
    assert_eq!(bridge.calculate_performance_gain(&game("a", "bevy", "unheard of", 3)), 3015);
    for (tier, multiplier) in
        [("simple", 1.1f32), ("intermediate", 1.3), ("advanced", 1.5), ("expert", 1.8), ("", 1.2)]
    {
        for count in [0usize, 1, 7, 40] {
            let gain = bridge.calculate_performance_gain(&game("a", "bevy", tier, count));
            let expected = 25.0 * multiplier + count as f32 * 0.05;
            assert!((percent(gain) - expected).abs() < 1e-3, "{} {}", tier, count);
        }
    }
}

#[test]
fn advice_holds_the_three_lists_and_the_gain() {
    let bridge = RustGameDevBridge::new();
    let advised = bridge.generate_bevy_optimizations(&game("Demo", "bevy", "advanced", 4));
    assert_eq!(
        advised.memory_optimizations,
        vec![
            "Dense component storage",
            "SoA (Structure of Arrays) layout",
            "Memory pooling for entities",
            "Cache-aligned data structures"
        ]
    );
    assert_eq!(
        advised.performance_improvements,
        vec![
            "Parallel system execution",
            "SIMD vectorization",
            "Branch prediction optimization",
            "Zero-cost abstractions"
        ]
    );
    assert_eq!(
        advised.ecs_optimizations,
        vec![
            "Query batching",
            "System ordering optimization",
            "Component archetype optimization",
            "Change detection minimization"
        ]
    );
    assert_eq!(advised.estimated_performance_gain, 3770);
}

#[test]
fn advice_is_remembered_by_title() {
    let mut bridge = RustGameDevBridge::new();
    assert!(bridge.cached_result("Demo").is_none());

    let advised = bridge.optimize_bevy_game(&game("Demo", "bevy", "simple", 2));
    assert_eq!(advised.estimated_performance_gain, 2760);
    assert_eq!(bridge.cached_result("Demo").unwrap().estimated_performance_gain, 2760);
    assert_eq!(bridge.cached_result("Demo").unwrap().memory_optimizations.len(), 4);
    assert!(bridge.cached_result("Other").is_none());

    bridge.optimize_bevy_game(&game("Other", "bevy", "expert", 0));
    bridge.optimize_bevy_game(&game("Demo", "bevy", "advanced", 4));
    assert_eq!(bridge.cached_result("Demo").unwrap().estimated_performance_gain, 3770);
    assert_eq!(bridge.cached_result("Other").unwrap().estimated_performance_gain, 4500);
    assert!(bridge.cached_result("demo").is_none());
}

#[test]
fn result_copy_is_equal_in_every_field() {
    let bridge = RustGameDevBridge::new();
    let advised = bridge.generate_bevy_optimizations(&game("Demo", "bevy", "expert", 3));
    let twin = advised.copy();
    assert_eq!(twin.memory_optimizations, advised.memory_optimizations);
    assert_eq!(twin.performance_improvements, advised.performance_improvements);
    assert_eq!(twin.ecs_optimizations, advised.ecs_optimizations);
    assert_eq!(twin.estimated_performance_gain, advised.estimated_performance_gain);
}

#[test]
fn analysis_has_three_sections() {
    let analysis = RustGameDevBridge::new().analyze_performance();
    let sections = entries_of(&analysis);
    assert_eq!(keys(sections), ["ecs_system_analysis", "rendering_analysis", "memory_analysis"]);

    let ecs = entries_of(&sections[0].value);
    assert_eq!(keys(ecs), ["parallel_systems", "memory_efficiency", "cache_locality"]);
    assert!(flag_of(&ecs[0].value));
    assert_eq!(text_of(&ecs[1].value), "high");
    assert_eq!(text_of(&ecs[2].value), "optimized");

    let rendering = entries_of(&sections[1].value);
    assert_eq!(keys(rendering), ["batch_rendering", "frustum_culling", "occlusion_culling"]);
    assert!(flag_of(&rendering[0].value));
    assert!(flag_of(&rendering[1].value));
    assert_eq!(text_of(&rendering[2].value), "recommended");

    let memory = entries_of(&sections[2].value);
    assert_eq!(keys(memory), ["component_packing", "memory_pools", "fragmentation_risk"]);
    assert_eq!(text_of(&memory[0].value), "dense");
    assert_eq!(text_of(&memory[1].value), "enabled");
    assert_eq!(text_of(&memory[2].value), "low");
}

#[test]
fn bevy_plan_nests_three_groups() {
    let plan = RustGameDevBridge::new().optimize_game_performance(&game("a", "bevy", "simple", 0));
    let top = entries_of(&plan);
    assert_eq!(keys(top), ["rust_optimizations", "performance_metrics"]);
    let groups = entries_of(&top[0].value);
    assert_eq!(keys(groups), ["ecs_systems", "memory_layout", "rendering"]);

    let ecs = entries_of(&groups[0].value);
    assert_eq!(keys(ecs), ["parallel_execution", "system_ordering", "query_batching"]);
    assert!(flag_of(&ecs[0].value));
    assert_eq!(text_of(&ecs[1].value), "optimized");
    assert!(flag_of(&ecs[2].value));

    let memory = entries_of(&groups[1].value);
    assert_eq!(keys(memory), ["component_packing", "cache_alignment", "memory_pools"]);
    assert_eq!(text_of(&memory[0].value), "dense");
    assert!(flag_of(&memory[1].value));
    assert_eq!(text_of(&memory[2].value), "enabled");

    let rendering = entries_of(&groups[2].value);
    assert_eq!(keys(rendering), ["batch_rendering", "instance_rendering", "frustum_culling"]);
    assert!(rendering.iter().all(|e| flag_of(&e.value)));

    let metrics = entries_of(&top[1].value);
    assert_eq!(keys(metrics), ["expected_fps_gain", "memory_reduction", "load_time_improvement"]);
    assert_eq!(text_of(&metrics[0].value), "25-40%");
    assert_eq!(text_of(&metrics[1].value), "15-30%");
    assert_eq!(text_of(&metrics[2].value), "20-35%");
}

#[test]
fn godot_plan_has_flags_and_metrics() {
    let plan = RustGameDevBridge::new().optimize_game_performance(&game("a", "godot", "simple", 0));
    let top = entries_of(&plan);
    assert_eq!(keys(top), ["rust_optimizations", "performance_metrics"]);
    let flags = entries_of(&top[0].value);
    assert_eq!(
        keys(flags),
        ["gdnative_integration", "critical_path_optimization", "native_performance_nodes"]
    );
    assert!(flags.iter().all(|e| flag_of(&e.value)));
    let metrics = entries_of(&top[1].value);
    assert_eq!(
        keys(metrics),
        ["script_execution_speedup", "physics_optimization", "rendering_improvements"]
    );
    assert_eq!(text_of(&metrics[0].value), "200-500%");
    assert_eq!(text_of(&metrics[1].value), "30-50%");
    assert_eq!(text_of(&metrics[2].value), "10-20%");
}

#[test]
fn arcade_plan_has_flags_and_metrics() {
    let plan =
        RustGameDevBridge::new().optimize_game_performance(&game("a", "arcade", "simple", 0));
    let top = entries_of(&plan);
    assert_eq!(keys(top), ["rust_optimizations", "performance_metrics"]);
    let settings = entries_of(&top[0].value);
    assert_eq!(keys(settings), ["wasm_compilation", "sprite_batching", "memory_management"]);
    assert!(flag_of(&settings[0].value));
    assert!(flag_of(&settings[1].value));
    assert_eq!(text_of(&settings[2].value), "optimized");
    let metrics = entries_of(&top[1].value);
    assert_eq!(
        keys(metrics),
        ["web_performance_gain", "startup_time_reduction", "memory_usage_reduction"]
    );
    assert_eq!(text_of(&metrics[0].value), "40-60%");
    assert_eq!(text_of(&metrics[1].value), "50-70%");
    assert_eq!(text_of(&metrics[2].value), "20-35%");
}

#[test]
fn other_engines_get_the_generic_plan() {
    let bridge = RustGameDevBridge::new();
    for engine in ["unity", "Bevy", ""] {
        let plan = bridge.optimize_game_performance(&game("a", engine, "simple", 0));
        let top = entries_of(&plan);
        assert_eq!(keys(top), ["rust_optimizations"]);
        let flags = entries_of(&top[0].value);
        assert_eq!(keys(flags), ["general_performance", "memory_safety", "zero_cost_abstractions"]);
        assert!(flags.iter().all(|e| flag_of(&e.value)));
    }
}

#[test]
fn report_entries_are_built_from_their_parts() {
    let entry = ReportEntry::section(
        "outer",
        vec![ReportEntry::flag("on", false), ReportEntry::text("label", "x")],
    );
    assert_eq!(entry.key, "outer");
    let inner = entries_of(&entry.value);
    assert_eq!(keys(inner), ["on", "label"]);
    assert!(!flag_of(&inner[0].value));
    assert_eq!(text_of(&inner[1].value), "x");
}

#[test]
fn sanitized_name_keeps_letters_and_digits() {
    let bridge = RustGameDevBridge::new();
    assert_eq!(bridge.sanitize_name("Space Race 2: Return!"), "SpaceRace2Return");
    assert_eq!(bridge.sanitize_name("\t tabs and\nlines "), "tabsandlines");
    assert_eq!(bridge.sanitize_name("---"), "");
}

#[test]
fn bindings_have_the_exact_text() {
    let expected = "// Generated Rust bindings for: Space Race\n\
// Engine: bevy\n\
// Auto-generated by AI Game Dev Library\n\
\n\
use pyo3::prelude::*;\n\
\n\
#[pyclass]\n\
pub struct SpaceRaceGame {\n    title: String,\n    running: bool,\n}\n\
\n\
#[pymethods]\n\
impl SpaceRaceGame {\n    #[new]\n    pub fn new() -> Self {\n        Self {\n            title: \"Space Race\".to_string(),\n            running: false,\n        }\n    }\n    \n    pub fn start(&mut self) -> PyResult<String> {\n        self.running = true;\n        Ok(format!(\"{} started successfully!\", self.title))\n    }\n    \n    pub fn stop(&mut self) -> PyResult<String> {\n        self.running = false;\n        Ok(\"Game stopped\".to_string())\n    }\n    \n    pub fn is_running(&self) -> bool {\n        self.running\n    }\n    \n    #[getter]\n    pub fn title(&self) -> &str {\n        &self.title\n    }\n}\n\
\n\
#[pymodule]\n\
fn SpaceRace_game(_py: Python, m: &PyModule) -> PyResult<()> {\n    m.add_class::<SpaceRaceGame>()?;\n    Ok(())\n}\n";
    let bridge = RustGameDevBridge::new();
    let data = game("Space Race", "bevy", "simple", 0);
    assert_eq!(bridge.generate_bindings(&data), expected);
    assert_eq!(bridge.create_rust_bindings(&data), expected);
    assert_eq!(render_bindings("Space Race", "bevy", "SpaceRace"), expected);
}
