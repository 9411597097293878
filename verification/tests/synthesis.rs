use bevy_game_dev::catalog::{baseline, definitions_for, feature_tags, is_known_feature};
use bevy_game_dev::error::GenerationError;
use bevy_game_dev::generator::BevyGameGenerator;
use bevy_game_dev::model::{OptimizationLevel, QueryAccess};
use bevy_game_dev::outline::generate_bevy_project;
use bevy_game_dev::project::BevyGameProject;
use bevy_game_dev::specification::{
    BevyGameConfig, ComplexityLevel, ECSFeature, GameData, GameSpec, GameType,
};

fn game(features: &[&str]) -> GameData {
    GameData {
        title: "Demo".to_string(),
        engine: "bevy".to_string(),
        complexity: "intermediate".to_string(),
        features: features.iter().map(|f| f.to_string()).collect(),
    }
}

fn config(ecs_features: &[ECSFeature]) -> BevyGameConfig {
    BevyGameConfig {
        name: "Demo".to_string(),
        description: "A demo".to_string(),
        target_fps: 60,
        max_entities: 1000,
        enable_physics: false,
        enable_networking: false,
        optimization_level: OptimizationLevel::Release,
        ecs_features: ecs_features.to_vec(),
    }
}

fn synthesize(features: &[&str], ecs_features: &[ECSFeature]) -> BevyGameProject {
    BevyGameGenerator::new().create_bevy_project(game(features), config(ecs_features)).unwrap()
}

fn component_names(project: &BevyGameProject) -> Vec<&str> {
    project.components.iter().map(|c| c.name.as_str()).collect()
}

fn system_names(project: &BevyGameProject) -> Vec<&str> {
    project.systems.iter().map(|s| s.name.as_str()).collect()
}

fn resource_names(project: &BevyGameProject) -> Vec<&str> {
    project.resources.iter().map(|r| r.name.as_str()).collect()
}

#[test]
fn catalog_knows_seven_features() {
    for tag in [
        "health_system",
        "resource_management",
        "combat_system",
        "resource_collection",
        "physics",
        "ai",
        "audio",
    ] {
        assert!(is_known_feature(tag), "{}", tag);
    }
    assert!(!is_known_feature("networking"));
    assert!(!is_known_feature("Physics"));
    assert!(!is_known_feature(""));
    assert_eq!(
        feature_tags(),
        [
            "health_system",
            "resource_management",
            "combat_system",
            "resource_collection",
            "physics",
            "ai",
            "audio"
        ]
    );
    for tag in feature_tags() {
        assert!(is_known_feature(&tag));
    }
}

#[test]
fn baseline_holds_transform_velocity_and_movement() {
    let defs = baseline(false, OptimizationLevel::Debug);
    assert_eq!(defs.components.len(), 2);
    assert_eq!(defs.components[0].name, "Transform");
    assert_eq!(
        defs.components[0].fields,
        vec![
            ("position".to_string(), "Vec3".to_string()),
            ("rotation".to_string(), "Quat".to_string()),
            ("scale".to_string(), "Vec3".to_string()),
        ]
    );
    assert_eq!(defs.components[0].traits, vec!["Component", "Debug"]);
    assert_eq!(defs.components[1].name, "Velocity");
    assert_eq!(defs.components[1].traits, vec!["Component", "Debug", "Default"]);
    assert_eq!(defs.systems.len(), 1);
    assert_eq!(defs.systems[0].name, "movement_system");
    assert_eq!(defs.systems[0].resources, vec!["Res<Time>"]);
    assert_eq!(defs.systems[0].query_components.len(), 2);
    assert_eq!(defs.systems[0].query_components[0].access, QueryAccess::ReadWrite);
    assert_eq!(defs.systems[0].query_components[0].component, "Transform");
    assert_eq!(defs.systems[0].query_components[1].access, QueryAccess::Read);
    assert_eq!(defs.systems[0].query_components[1].component, "Velocity");
    assert_eq!(defs.resources.len(), 2);
    assert_eq!(defs.resources[0].name, "GameState");
    assert_eq!(defs.resources[1].name, "PerformanceMetrics");
}

#[test]
fn catalog_entries_hold_what_they_declare() {
    let health = definitions_for("health_system", false, OptimizationLevel::Debug);
    assert_eq!(health.components.len(), 1);
    assert_eq!(health.components[0].name, "Health");
    assert_eq!(
        health.components[0].fields,
        vec![
            ("current".to_string(), "f32".to_string()),
            ("max".to_string(), "f32".to_string()),
            ("regeneration_rate".to_string(), "f32".to_string()),
        ]
    );
    assert!(health.systems.is_empty());
    assert!(health.resources.is_empty());

    let combat = definitions_for("combat_system", false, OptimizationLevel::Maximum);
    assert_eq!(combat.components.len(), 1);
    assert_eq!(combat.components[0].name, "Health");
    assert_eq!(combat.systems.len(), 1);
    assert_eq!(combat.systems[0].name, "combat_system");
    assert!(!combat.systems[0].parallel);
    assert!(definitions_for("combat_system", true, OptimizationLevel::Debug).systems[0].parallel);
    assert_eq!(combat.systems[0].optimization_level, OptimizationLevel::Maximum);
    assert_eq!(combat.systems[0].resources, vec!["Res<Time>", "EventWriter<CombatEvent>"]);

    let collection = definitions_for("resource_collection", true, OptimizationLevel::Debug);
    assert_eq!(collection.components[0].name, "ResourceStorage");
    assert_eq!(collection.systems[0].name, "resource_collection_system");
    assert!(!collection.systems[0].parallel);
    assert_eq!(collection.systems[0].resources, vec!["ResMut<GlobalResources>"]);

    let audio = definitions_for("audio", true, OptimizationLevel::Debug);
    assert!(audio.components.is_empty());
    assert_eq!(audio.systems[0].name, "audio_system");
    assert!(audio.systems[0].parallel);
}

#[test]
fn unknown_tag_has_no_catalog_entry() {
    let defs = definitions_for("networking", true, OptimizationLevel::Release);
    assert!(defs.components.is_empty());
    assert!(defs.systems.is_empty());
    assert!(defs.resources.is_empty());
}

#[test]
fn every_project_holds_the_baseline() {
    for features in [&[][..], &["physics"][..], &["networking", "audio"][..]] {
        let project = synthesize(features, &[]);
        assert_eq!(&component_names(&project)[..2], ["Transform", "Velocity"]);
        assert_eq!(system_names(&project)[0], "movement_system");
        assert_eq!(resource_names(&project), ["GameState", "PerformanceMetrics"]);
        assert_eq!(project.plugins, vec!["DefaultPlugins"]);
        assert_eq!(project.name, "Demo");
    }
}

#[test]
fn physics_scenario_yields_the_expected_project() {
    let project = synthesize(&["physics"], &[]);
    assert_eq!(component_names(&project), ["Transform", "Velocity", "RigidBody", "Collider"]);
    assert_eq!(system_names(&project), ["movement_system", "physics_system"]);
    assert!(!project.systems[1].parallel);

    let code = project.generate_code();
    for component in &project.components {
        assert!(code.contains(&component.generate_rust_code()));
        assert!(code.contains(&format!("pub struct {} {{", component.name)));
    }
    let physics = "fn physics_system(\n    mut query: Query<(&mut Transform, &mut Velocity, &RigidBody, &Collider)>,\n    res: Res<Time>,\n) {\n    // AI-generated system logic\n    for components in query.iter_mut() {\n        // Sequential processing logic\n    }\n}";
    assert_eq!(project.systems[1].generate_rust_code(), physics);
    assert!(code.contains(physics));

    let spec = GameSpec {
        name: "Demo".to_string(),
        description: "A demo".to_string(),
        game_type: GameType::TwoDimensional,
        features: vec!["physics".to_string()],
        complexity: ComplexityLevel::Intermediate,
    };
    let outline = generate_bevy_project(&spec).unwrap();
    assert!(outline.components.contains(&"RigidBody".to_string()));
    assert!(outline.components.contains(&"Collider".to_string()));
    assert!(outline.systems.contains(&"movement_system".to_string()));
    assert!(outline.systems.contains(&"physics_system".to_string()));
}

#[test]
fn parallelism_strategy_marks_eligible_systems() {
    let project = synthesize(
        &["physics", "combat_system", "resource_collection", "ai", "audio"],
        &[ECSFeature::SystemParallelization],
    );
    assert_eq!(
        system_names(&project),
        [
            "movement_system",
            "physics_system",
            "combat_system",
            "resource_collection_system",
            "ai_system",
            "audio_system"
        ]
    );
    let flags: Vec<bool> = project.systems.iter().map(|s| s.parallel).collect();
    assert_eq!(flags, [true, true, true, false, true, true]);
    assert!(project.generate_code().contains(
        "fn physics_system(\n    mut query: Query<(&mut Transform, &mut Velocity, &RigidBody, &Collider)>,\n    res: Res<Time>,\n) {\n    // AI-generated system logic\n    query.par_for_each_mut(32, |components| {\n"
    ));

    let sequential = synthesize(&["physics", "combat_system", "resource_collection"], &[]);
    let flags: Vec<bool> = sequential.systems.iter().map(|s| s.parallel).collect();
    assert_eq!(flags, [false, false, false, false]);
}

#[test]
fn no_system_is_parallel_without_the_strategy() {
    let tags = ["combat_system", "physics", "ai", "audio", "resource_collection", "health_system"];
    let other_strategies = [
        ECSFeature::SpatialPartitioning,
        ECSFeature::EntityBatching,
        ECSFeature::ComponentPacking,
        ECSFeature::MemoryPooling,
        ECSFeature::QueryOptimization,
    ];
    let project = synthesize(&tags, &other_strategies);
    assert_eq!(project.systems.len(), 6);
    for system in &project.systems {
        assert!(!system.parallel, "{}", system.name);
        assert!(system.generate_rust_code().contains("    for components in query.iter_mut() {\n"));
        assert!(!system.generate_rust_code().contains("par_for_each_mut"));
    }
    let generator = BevyGameGenerator::new();
    for system in generator.generate_systems(&game(&tags), &config(&other_strategies)) {
        assert!(!system.parallel, "{}", system.name);
    }
}

#[test]
fn systems_inherit_the_optimization_level() {
    let project = synthesize(&["physics", "combat_system"], &[]);
    for system in &project.systems {
        assert_eq!(system.optimization_level, OptimizationLevel::Release);
    }
}

#[test]
fn overlapping_features_leave_one_definition() {
    let project = synthesize(&["health_system", "combat_system", "health_system"], &[]);
    assert_eq!(component_names(&project), ["Transform", "Velocity", "Health"]);
    assert_eq!(system_names(&project), ["movement_system", "combat_system"]);

    let project = synthesize(&["resource_collection", "resource_management"], &[]);
    assert_eq!(component_names(&project), ["Transform", "Velocity", "ResourceStorage"]);

    let project = synthesize(&["physics", "physics", "physics"], &[]);
    assert_eq!(component_names(&project), ["Transform", "Velocity", "RigidBody", "Collider"]);
    assert_eq!(system_names(&project), ["movement_system", "physics_system"]);
}

#[test]
fn definitions_follow_the_order_of_the_tags() {
    let project = synthesize(&["ai", "resource_management", "physics", "health_system"], &[]);
    assert_eq!(
        component_names(&project),
        [
            "Transform",
            "Velocity",
            "AIController",
            "NavigationTarget",
            "ResourceStorage",
            "RigidBody",
            "Collider",
            "Health"
        ]
    );
    assert_eq!(system_names(&project), ["movement_system", "ai_system", "physics_system"]);
}

#[test]
fn every_queried_component_is_declared() {
    let project = synthesize(
        &["audio", "ai", "combat_system", "resource_collection", "physics"],
        &[ECSFeature::SystemParallelization],
    );
    let declared = component_names(&project);
    for system in &project.systems {
        for query in &system.query_components {
            assert!(declared.contains(&query.component.as_str()), "{}", query.component);
        }
    }
    for component in &project.components {
        assert!(component.is_well_formed());
    }
    for resource in &project.resources {
        assert!(resource.is_well_formed());
    }
}

#[test]
fn unknown_tag_contributes_nothing() {
    let with_unknown = synthesize(&["networking", "physics", "multiplayer"], &[]);
    let without = synthesize(&["physics"], &[]);
    assert_eq!(component_names(&with_unknown), component_names(&without));
    assert_eq!(system_names(&with_unknown), system_names(&without));
    assert_eq!(with_unknown.generate_code(), without.generate_code());
}

#[test]
fn strict_generator_rejects_the_first_unknown_tag() {
    let generator = BevyGameGenerator::with_strict_mode(true);
    assert!(generator.is_strict());
    let outcome = generator
        .create_bevy_project(game(&["physics", "networking", "multiplayer"]), config(&[]));
    match outcome {
        Err(GenerationError::MalformedSpecification(tag)) => assert_eq!(tag, "networking"),
        other => panic!("unexpected outcome: {:?}", other),
    }
}

#[test]
fn strict_generator_accepts_known_tags() {
    let generator = BevyGameGenerator::with_strict_mode(true);
    let project = generator.create_bevy_project(game(&["physics", "audio"]), config(&[])).unwrap();
    assert_eq!(
        system_names(&project),
        ["movement_system", "physics_system", "audio_system"]
    );
}

#[test]
fn lenient_generator_is_the_default() {
    assert!(!BevyGameGenerator::new().is_strict());
    assert!(!BevyGameGenerator::with_strict_mode(false).is_strict());
    let generator = BevyGameGenerator::new();
    assert_eq!(generator.find_unknown_feature(&game(&["audio", "x", "y"])), Some("x".to_string()));
    assert_eq!(generator.find_unknown_feature(&game(&["audio"])), None);
    assert!(generator.create_bevy_project(game(&["x"]), config(&[])).is_ok());
}

#[test]
fn strategies_register_plugins_and_leave_notes() {
    let project = synthesize(
        &[],
        &[
            ECSFeature::MemoryPooling,
            ECSFeature::EntityBatching,
            ECSFeature::SpatialPartitioning,
            ECSFeature::QueryOptimization,
            ECSFeature::ComponentPacking,
            ECSFeature::MemoryPooling,
            ECSFeature::EntityBatching,
        ],
    );
    assert_eq!(
        project.plugins,
        vec!["DefaultPlugins", "MemoryPoolPlugin", "SpatialPartitioningPlugin"]
    );
    assert_eq!(
        project.optimizations,
        vec!["Entity batching enabled", "Dense component storage", "Entity batching enabled"]
    );
    let code = project.generate_code();
    assert!(code.contains(
        "        .add_plugins(DefaultPlugins)\n        .add_plugins(MemoryPoolPlugin)\n        .add_plugins(SpatialPartitioningPlugin)\n"
    ));
}

#[test]
fn apply_optimizations_extends_an_existing_project() {
    let generator = BevyGameGenerator::new();
    let mut project = BevyGameProject::new("Demo".to_string());
    project.add_plugin("MemoryPoolPlugin".to_string());
    generator.apply_optimizations(
        &mut project,
        &config(&[ECSFeature::MemoryPooling, ECSFeature::ComponentPacking]),
    );
    assert_eq!(project.plugins, vec!["DefaultPlugins", "MemoryPoolPlugin"]);
    assert_eq!(project.optimizations, vec!["Dense component storage"]);
}

#[test]
fn config_finds_its_strategies() {
    let config = config(&[ECSFeature::EntityBatching, ECSFeature::MemoryPooling]);
    assert!(config.has_feature(ECSFeature::MemoryPooling));
    assert!(!config.has_feature(ECSFeature::SystemParallelization));
}

#[test]
fn emission_is_repeatable() {
    let features = ["combat_system", "physics", "unknown", "audio"];
    let strategies = [ECSFeature::SystemParallelization, ECSFeature::MemoryPooling];
    let first = synthesize(&features, &strategies).generate_code();
    let second = synthesize(&features, &strategies).generate_code();
    assert_eq!(first, second);
    let project = synthesize(&features, &strategies);
    assert_eq!(project.generate_code(), project.generate_code());
}

#[test]
fn whole_project_is_emitted_for_the_health_feature() {
    let project = synthesize(&["health_system"], &[]);
    let expected = [
        "//! Demo - AI Generated Bevy Game\n",
        "//! Generated by bevy_game_dev with AI assistance\n\n",
        "use bevy::prelude::*;\n",
        "use std::collections::HashMap;\n\n",
        "#[derive(Component, Debug)]\npub struct Transform {\n    pub position: Vec3,\n    pub rotation: Quat,\n    pub scale: Vec3,\n}\n\n",
        "#[derive(Component, Debug, Default)]\npub struct Velocity {\n    pub linear: Vec3,\n    pub angular: Vec3,\n}\n\n",
        "#[derive(Component, Debug)]\npub struct Health {\n    pub current: f32,\n    pub max: f32,\n    pub regeneration_rate: f32,\n}\n\n",
        "#[derive(Resource, Debug)]\npub struct GameState {\n    pub current_level: u32,\n    pub score: u64,\n    pub game_mode: GameMode,\n}\n\n",
        "#[derive(Resource, Debug, Default)]\npub struct PerformanceMetrics {\n    pub fps: f32,\n    pub entity_count: usize,\n    pub memory_usage: u64,\n}\n\n",
        "fn movement_system(\n    mut query: Query<(&mut Transform, &Velocity)>,\n    res: Res<Time>,\n) {\n    // AI-generated system logic\n    for components in query.iter_mut() {\n        // Sequential processing logic\n    }\n}\n\n",
        "fn main() {\n    App::new()\n        .add_plugins(DefaultPlugins)\n        .add_systems(Startup, setup)\n        .add_systems(Update, (\n            movement_system\n        ))\n        .run();\n}\n\n",
        "fn setup(mut commands: Commands) {\n    // AI-generated setup code\n    commands.spawn(Camera3dBundle::default());\n}\n",
    ]
    .concat();
    assert_eq!(project.generate_code(), expected);
}

#[test]
fn generator_parts_agree_with_the_whole() {
    let generator = BevyGameGenerator::new();
    let data = game(&["resource_management", "combat_system"]);
    let config = config(&[ECSFeature::SystemParallelization]);
    let components = generator.generate_components(&data);
    let systems = generator.generate_systems(&data, &config);
    let resources = generator.generate_resources(&data);
    let names: Vec<&str> = components.iter().map(|c| c.name.as_str()).collect();
    assert_eq!(names, ["Transform", "Velocity", "ResourceStorage", "Health"]);
    let names: Vec<&str> = systems.iter().map(|s| s.name.as_str()).collect();
    assert_eq!(names, ["movement_system", "combat_system"]);
    assert!(systems[0].parallel);
    let names: Vec<&str> = resources.iter().map(|r| r.name.as_str()).collect();
    assert_eq!(names, ["GameState", "PerformanceMetrics"]);
}

#[test]
fn upstream_failure_is_handed_on_unchanged() {
    let generator = BevyGameGenerator::new();
    let outcome = generator.generate_game(
        Err(GenerationError::UpstreamUnavailable("bridge not reachable".to_string())),
        config(&[]),
    );
    match outcome {
        Err(GenerationError::UpstreamUnavailable(reason)) => {
            assert_eq!(reason, "bridge not reachable")
        }
        other => panic!("unexpected outcome: {:?}", other),
    }
    let outcome = generator.generate_game(
        Err(GenerationError::SerializationError("missing field `title`".to_string())),
        config(&[]),
    );
    match outcome {
        Err(GenerationError::SerializationError(reason)) => {
            assert_eq!(reason, "missing field `title`")
        }
        other => panic!("unexpected outcome: {:?}", other),
    }
}

#[test]
fn upstream_report_is_synthesized() {
    let generator = BevyGameGenerator::new();
    let project = generator.generate_game(Ok(game(&["physics"])), config(&[])).unwrap();
    assert_eq!(project.generate_code(), synthesize(&["physics"], &[]).generate_code());
    let strict = BevyGameGenerator::with_strict_mode(true);
    assert!(strict.generate_game(Ok(game(&["warp"])), config(&[])).is_err());
}

#[test]
fn errors_report_themselves() {
    assert_eq!(
        GenerationError::MalformedSpecification("warp".to_string()).message(),
        "malformed specification: unknown feature tag warp"
    );
    assert_eq!(
        GenerationError::SerializationError("bad input".to_string()).message(),
        "serialization error: bad input"
    );
    assert_eq!(
        GenerationError::UpstreamUnavailable("no answer".to_string()).message(),
        "upstream unavailable: no answer"
    );
}
