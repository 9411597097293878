use bevy_game_dev::outline::{
    determine_required_assets, generate_bevy_project, generate_cargo_toml, generate_components,
    generate_main_rs, generate_systems,
};
use bevy_game_dev::specification::{ComplexityLevel, GameSpec, GameType};

fn spec_with(game_type: GameType, features: &[&str]) -> GameSpec {
    GameSpec {
        name: "Sample".to_string(),
        description: "A sample game".to_string(),
        game_type,
        features: features.iter().map(|f| f.to_string()).collect(),
        complexity: ComplexityLevel::Intermediate,
    }
}

fn strings(items: &[&str]) -> Vec<String> {
    items.iter().map(|s| s.to_string()).collect()
}

#[test]
fn test_generate_2d_project() {
    let spec = GameSpec {
        name: "TestGame".to_string(),
        description: "A simple 2D platformer".to_string(),
        game_type: GameType::TwoDimensional,
        features: vec!["physics".to_string()],
        complexity: ComplexityLevel::Beginner,
    };

    let project = generate_bevy_project(&spec).unwrap();
    assert!(project.cargo_toml.contains("TestGame"));
    assert!(project.main_rs.contains("Camera2dBundle"));
    assert!(project.components.contains(&"RigidBody".to_string()));
}

#[test]
fn test_cargo_toml_compilation() {
    let spec = GameSpec {
        name: "CompileTest".to_string(),
        description: "Test compilation".to_string(),
        game_type: GameType::TwoDimensional,
        features: vec![],
        complexity: ComplexityLevel::Beginner,
    };

    let project = generate_bevy_project(&spec).unwrap();

    let _: toml::Value = project.cargo_toml.parse().expect("Valid Cargo.toml");
}

#[test]
fn manifest_has_the_exact_text() {
    assert_eq!(
        generate_cargo_toml("space_race"),
        "[package]\nname = \"space_race\"\nversion = \"0.1.0\"\nedition = \"2021\"\n\n[dependencies]\nbevy = \"0.14\"\n"
    );
}

#[test]
fn manifest_names_the_package_and_the_engine() {
    let manifest: toml::Value = generate_cargo_toml("space_race").parse().unwrap();
    assert_eq!(manifest["package"]["name"].as_str(), Some("space_race"));
    assert_eq!(manifest["package"]["edition"].as_str(), Some("2021"));
    assert_eq!(manifest["dependencies"]["bevy"].as_str(), Some("0.14"));
}

#[test]
fn entry_point_has_the_exact_text() {
    let spec = spec_with(GameType::ThreeDimensional, &[]);
    let expected = "use bevy::prelude::*;\n\
\n\
fn main() {\n    App::new()\n        .add_plugins(DefaultPlugins)\n        .add_systems(Startup, setup)\n        .add_systems(Update, (movement_system, game_logic_system))\n        .run();\n}\n\
\n\
fn setup(mut commands: Commands) {\n    // Setup camera\n    commands.spawn(Camera2dBundle::default());\n    \n    // Setup game entities based on specification\n    // Game: A sample game\n}\n\
\n\
fn movement_system() {\n    // Movement logic\n}\n\
\n\
fn game_logic_system() {\n    // Core game logic\n}\n";
    assert_eq!(generate_main_rs(&spec), expected);
}

#[test]
fn component_names_follow_the_features() {
    assert_eq!(
        generate_components(&spec_with(GameType::TwoDimensional, &[])),
        strings(&["Player", "Position", "Velocity"])
    );
    assert_eq!(
        generate_components(&spec_with(GameType::TwoDimensional, &["ai", "physics"])),
        strings(&[
            "Player",
            "Position",
            "Velocity",
            "RigidBody",
            "Collider",
            "AIController",
            "NavigationTarget"
        ])
    );
    assert_eq!(
        generate_components(&spec_with(GameType::TwoDimensional, &["audio", "networking"])),
        strings(&["Player", "Position", "Velocity"])
    );
}

#[test]
fn system_names_follow_the_features() {
    assert_eq!(
        generate_systems(&spec_with(GameType::TwoDimensional, &[])),
        strings(&["movement_system", "game_logic_system"])
    );
    assert_eq!(
        generate_systems(&spec_with(GameType::ThreeDimensional, &["audio", "ai", "physics"])),
        strings(&[
            "movement_system",
            "game_logic_system",
            "physics_system",
            "ai_system",
            "audio_system"
        ])
    );
}

#[test]
fn repeated_feature_is_counted_once_in_the_outline() {
    assert_eq!(
        generate_systems(&spec_with(GameType::TwoDimensional, &["physics", "physics"])),
        strings(&["movement_system", "game_logic_system", "physics_system"])
    );
}

#[test]
fn silent_2d_game_needs_visual_assets_only() {
    let spec = spec_with(GameType::TwoDimensional, &["physics"]);
    assert_eq!(
        determine_required_assets(&spec),
        strings(&["sprites/player.png", "sprites/background.png"])
    );
}

#[test]
fn audio_tag_appends_the_audio_assets() {
    let silent = determine_required_assets(&spec_with(GameType::TwoDimensional, &["physics"]));
    let loud =
        determine_required_assets(&spec_with(GameType::TwoDimensional, &["audio", "physics"]));
    let mut expected = silent.clone();
    expected.push("audio/background_music.ogg".to_string());
    expected.push("audio/sound_effects.wav".to_string());
    assert_eq!(loud, expected);
}

#[test]
fn three_dimensional_game_needs_models_and_textures() {
    assert_eq!(
        determine_required_assets(&spec_with(GameType::ThreeDimensional, &[])),
        strings(&["models/player.gltf", "textures/environment.png"])
    );
    assert_eq!(
        determine_required_assets(&spec_with(GameType::ThreeDimensional, &["audio"])),
        strings(&[
            "models/player.gltf",
            "textures/environment.png",
            "audio/background_music.ogg",
            "audio/sound_effects.wav"
        ])
    );
}

#[test]
fn outline_collects_all_five_parts() {
    let spec = spec_with(GameType::TwoDimensional, &["physics", "audio"]);
    let project = generate_bevy_project(&spec).unwrap();
    assert_eq!(project.cargo_toml, generate_cargo_toml("Sample"));
    assert_eq!(project.main_rs, generate_main_rs(&spec));
    assert_eq!(project.components, generate_components(&spec));
    assert_eq!(project.systems, generate_systems(&spec));
    assert_eq!(project.assets, determine_required_assets(&spec));
}

#[test]
fn tiers_are_ordered() {
    assert!(ComplexityLevel::Beginner.rank() < ComplexityLevel::Intermediate.rank());
    assert!(ComplexityLevel::Intermediate.rank() < ComplexityLevel::Advanced.rank());
}
