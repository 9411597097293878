//! The project outline: manifest, entry point, the names of the components
//! and systems a game needs, and the asset files it expects to find.

use crate::specification::{GameSpec, GameSpecModel, GameType};
use crate::text::contains_text;
use vstd::prelude::*;
use vstd::string::*;

verus! {

/// Everything a caller needs to lay a project out on disk.
#[derive(Clone, Debug)]
pub struct BevyProject {
    pub cargo_toml: String,
    pub main_rs: String,
    pub components: Vec<String>,
    pub systems: Vec<String>,
    pub assets: Vec<String>,
}

/// The view of a [`BevyProject`].
pub ghost struct OutlineModel {
    pub cargo_toml: Seq<char>,
    pub main_rs: Seq<char>,
    pub components: Seq<Seq<char>>,
    pub systems: Seq<Seq<char>>,
    pub assets: Seq<Seq<char>>,
}

impl View for BevyProject {
    type V = OutlineModel;

    open spec fn view(&self) -> OutlineModel {
        OutlineModel {
            cargo_toml: self.cargo_toml@,
            main_rs: self.main_rs@,
            components: self.components.deep_view(),
            systems: self.systems.deep_view(),
            assets: self.assets.deep_view(),
        }
    }
}

/// The manifest of a package called `name` that depends on the engine.
pub open spec fn manifest_text(name: Seq<char>) -> Seq<char> {
    "[package]\nname = \""@ + name
        + "\"\nversion = \"0.1.0\"\nedition = \"2021\"\n\n[dependencies]\nbevy = \"0.14\"\n"@
}

/// The plugin group a game of `game_type` registers.
pub open spec fn plugin_group(game_type: GameType) -> Seq<char> {
    match game_type {
        GameType::TwoDimensional => "DefaultPlugins"@,
        GameType::ThreeDimensional => "DefaultPlugins"@,
    }
}

/// The entry point: an app with the plugin group, a setup routine that
/// spawns a camera and quotes `description`, and the two core systems.
pub open spec fn entry_text(game_type: GameType, description: Seq<char>) -> Seq<char> {
    "use bevy::prelude::*;\n\nfn main() {\n    App::new()\n        .add_plugins("@ + plugin_group(
        game_type,
    ) + ")\n        .add_systems(Startup, setup)\n"@
        + "        .add_systems(Update, (movement_system, game_logic_system))\n"@
        + "        .run();\n}\n\n"@ + "fn setup(mut commands: Commands) {\n    // Setup camera\n"@
        + "    commands.spawn(Camera2dBundle::default());\n    \n"@
        + "    // Setup game entities based on specification\n    // Game: "@ + description
        + "\n}\n\n"@ + "fn movement_system() {\n    // Movement logic\n}\n\n"@
        + "fn game_logic_system() {\n    // Core game logic\n}\n"@
}

/// `extra` when `tag` is among `features`, nothing otherwise.
pub open spec fn when_tagged(features: Seq<Seq<char>>, tag: Seq<char>, extra: Seq<Seq<char>>)
    -> Seq<Seq<char>> {
    if features.contains(tag) {
        extra
    } else {
        Seq::empty()
    }
}

/// The names of the components a game needs: three for every game, two
/// more for physics and two more for AI, in this order.
pub open spec fn component_names(features: Seq<Seq<char>>) -> Seq<Seq<char>> {
    seq!["Player"@, "Position"@, "Velocity"@] + when_tagged(
        features,
        "physics"@,
        seq!["RigidBody"@, "Collider"@],
    ) + when_tagged(features, "ai"@, seq!["AIController"@, "NavigationTarget"@])
}

/// The names of the systems a game needs: two for every game, one more
/// each for physics, AI and audio, in this order.
pub open spec fn system_names(features: Seq<Seq<char>>) -> Seq<Seq<char>> {
    seq!["movement_system"@, "game_logic_system"@] + when_tagged(
        features,
        "physics"@,
        seq!["physics_system"@],
    ) + when_tagged(features, "ai"@, seq!["ai_system"@]) + when_tagged(
        features,
        "audio"@,
        seq!["audio_system"@],
    )
}

/// The files that show a game of `game_type`.
pub open spec fn visual_assets(game_type: GameType) -> Seq<Seq<char>> {
    match game_type {
        GameType::TwoDimensional => seq!["sprites/player.png"@, "sprites/background.png"@],
        GameType::ThreeDimensional => seq!["models/player.gltf"@, "textures/environment.png"@],
    }
}

/// The files a game with sound plays.
pub open spec fn audio_assets() -> Seq<Seq<char>> {
    seq!["audio/background_music.ogg"@, "audio/sound_effects.wav"@]
}

/// The asset files a game expects to find: the visual ones for its
/// dimensionality, then the audio ones if it has the audio feature.
pub open spec fn required_assets(game_type: GameType, features: Seq<Seq<char>>) -> Seq<Seq<char>> {
    visual_assets(game_type) + when_tagged(features, "audio"@, audio_assets())
}

/// The outline of the game that `spec` describes.
pub open spec fn outlined_project(spec: GameSpecModel) -> OutlineModel {
    OutlineModel {
        cargo_toml: manifest_text(spec.name),
        main_rs: entry_text(spec.game_type, spec.description),
        components: component_names(spec.features),
        systems: system_names(spec.features),
        assets: required_assets(spec.game_type, spec.features),
    }
}

/// A game without the audio feature needs its visual assets only; with the
/// audio tag added, wherever it stands among the tags, the audio assets
/// follow them and nothing else changes.
pub proof fn lemma_audio_appends_assets(
    game_type: GameType,
    features: Seq<Seq<char>>,
    position: int,
)
    requires
        !features.contains("audio"@),
        0 <= position <= features.len(),
    ensures
        required_assets(game_type, features) == visual_assets(game_type),
        required_assets(game_type, features.insert(position, "audio"@)) == required_assets(
            game_type,
            features,
        ) + audio_assets(),
{
    let widened = features.insert(position, "audio"@);
    assert(widened[position] == "audio"@);
    assert(required_assets(game_type, features) =~= visual_assets(game_type));
}

/// Whatever the feature tags, the outline starts with the three core
/// components and the two core systems.
pub proof fn lemma_outline_holds_core(features: Seq<Seq<char>>)
    ensures
        component_names(features).len() >= 3,
        component_names(features).subrange(0, 3) == seq!["Player"@, "Position"@, "Velocity"@],
        system_names(features).len() >= 2,
        system_names(features).subrange(0, 2) == seq![
            "movement_system"@,
            "game_logic_system"@,
        ],
{
    assert(component_names(features).subrange(0, 3) =~= seq![
        "Player"@,
        "Position"@,
        "Velocity"@,
    ]);
    assert(system_names(features).subrange(0, 2) =~= seq![
        "movement_system"@,
        "game_logic_system"@,
    ]);
}

/// A feature tag other than physics, AI and audio changes nothing in the
/// outline, wherever it stands among the tags.
pub proof fn lemma_outline_passes_over_other_tags(
    spec: GameSpecModel,
    position: int,
    tag: Seq<char>,
)
    requires
        tag != "physics"@,
        tag != "ai"@,
        tag != "audio"@,
        0 <= position <= spec.features.len(),
    ensures
        outlined_project(GameSpecModel { features: spec.features.insert(position, tag), ..spec })
            == outlined_project(spec),
{
    let features = spec.features;
    let widened = features.insert(position, tag);
    assert forall|wanted: Seq<char>| wanted != tag implies (widened.contains(wanted)
        <==> features.contains(wanted)) by {
        if features.contains(wanted) {
            let i = choose|i: int| 0 <= i < features.len() && features[i] == wanted;
            if i < position {
                assert(widened[i] == wanted);
            } else {
                assert(widened[i + 1] == wanted);
            }
        }
        if widened.contains(wanted) {
            let i = choose|i: int| 0 <= i < widened.len() && widened[i] == wanted;
            if i < position {
                assert(features[i] == wanted);
            } else {
                assert(features[i - 1] == wanted);
            }
        }
    }
}

/// Appends `extra` to `names`.
fn append_names(names: &mut Vec<String>, extra: Vec<String>)
    ensures
        final(names).deep_view() == old(names).deep_view() + extra.deep_view(),
{
    let ghost added = extra.deep_view();
    for name in it: extra
        invariant
            it.seq() == extra@,
            added == extra.deep_view(),
            names.deep_view() == old(names).deep_view() + added.subrange(0, it.index() as int),
    {
        let ghost before = names.deep_view();
        names.push(name);
        assert(names.deep_view() =~= before.push(added[it.index() as int]));
        assert(names.deep_view() =~= old(names).deep_view() + added.subrange(
            0,
            it.index() + 1,
        ));
    }
    assert(added.subrange(0, added.len() as int) =~= added);
}

/// Appends `extra` to `names` when `tag` is among `features`.
fn append_when_tagged(names: &mut Vec<String>, features: &Vec<String>, tag: &str, extra: Vec<String>)
    ensures
        final(names).deep_view() == old(names).deep_view() + when_tagged(
            features.deep_view(),
            tag@,
            extra.deep_view(),
        ),
{
    if contains_text(features, tag) {
        append_names(names, extra);
    } else {
        assert(names.deep_view() =~= old(names).deep_view() + Seq::<Seq<char>>::empty());
    }
}

/// The manifest of the generated package.
pub fn generate_cargo_toml(name: &str) -> (manifest: String)
    ensures
        manifest@ == manifest_text(name@),
{
    let mut manifest = String::new();
    manifest.append("[package]\nname = \"");
    manifest.append(name);
    manifest.append(
        "\"\nversion = \"0.1.0\"\nedition = \"2021\"\n\n[dependencies]\nbevy = \"0.14\"\n",
    );
    manifest
}

/// The entry point of the generated package.
pub fn generate_main_rs(spec: &GameSpec) -> (source: String)
    ensures
        source@ == entry_text(spec@.game_type, spec@.description),
{
    let plugins = match spec.game_type {
        GameType::TwoDimensional => "DefaultPlugins",
        GameType::ThreeDimensional => "DefaultPlugins",
    };
    let mut source = String::new();
    source.append("use bevy::prelude::*;\n\nfn main() {\n    App::new()\n        .add_plugins(");
    source.append(plugins);
    source.append(")\n        .add_systems(Startup, setup)\n");
    source.append("        .add_systems(Update, (movement_system, game_logic_system))\n");
    source.append("        .run();\n}\n\n");
    source.append("fn setup(mut commands: Commands) {\n    // Setup camera\n");
    source.append("    commands.spawn(Camera2dBundle::default());\n    \n");
    source.append("    // Setup game entities based on specification\n    // Game: ");
    source.append(spec.description.as_str());
    source.append("\n}\n\n");
    source.append("fn movement_system() {\n    // Movement logic\n}\n\n");
    source.append("fn game_logic_system() {\n    // Core game logic\n}\n");
    source
}

/// The names of the components the game needs.
pub fn generate_components(spec: &GameSpec) -> (names: Vec<String>)
    ensures
        names.deep_view() == component_names(spec@.features),
{
    let mut names = vec!["Player".to_string(), "Position".to_string(), "Velocity".to_string()];
    assert(names.deep_view() =~= seq!["Player"@, "Position"@, "Velocity"@]);
    let physics = vec!["RigidBody".to_string(), "Collider".to_string()];
    assert(physics.deep_view() =~= seq!["RigidBody"@, "Collider"@]);
    append_when_tagged(&mut names, &spec.features, "physics", physics);
    let ai = vec!["AIController".to_string(), "NavigationTarget".to_string()];
    assert(ai.deep_view() =~= seq!["AIController"@, "NavigationTarget"@]);
    append_when_tagged(&mut names, &spec.features, "ai", ai);
    names
}

/// The names of the systems the game needs.
pub fn generate_systems(spec: &GameSpec) -> (names: Vec<String>)
    ensures
        names.deep_view() == system_names(spec@.features),
{
    let mut names = vec!["movement_system".to_string(), "game_logic_system".to_string()];
    assert(names.deep_view() =~= seq!["movement_system"@, "game_logic_system"@]);
    let physics = vec!["physics_system".to_string()];
    assert(physics.deep_view() =~= seq!["physics_system"@]);
    append_when_tagged(&mut names, &spec.features, "physics", physics);
    let ai = vec!["ai_system".to_string()];
    assert(ai.deep_view() =~= seq!["ai_system"@]);
    append_when_tagged(&mut names, &spec.features, "ai", ai);
    let audio = vec!["audio_system".to_string()];
    assert(audio.deep_view() =~= seq!["audio_system"@]);
    append_when_tagged(&mut names, &spec.features, "audio", audio);
    names
}

/// The asset files the game expects to find.
pub fn determine_required_assets(spec: &GameSpec) -> (assets: Vec<String>)
    ensures
        assets.deep_view() == required_assets(spec@.game_type, spec@.features),
{
    let mut assets = match spec.game_type {
        GameType::TwoDimensional => {
            let visual = vec!["sprites/player.png".to_string(), "sprites/background.png".to_string()];
            assert(visual.deep_view() =~= visual_assets(GameType::TwoDimensional));
            visual
        },
        GameType::ThreeDimensional => {
            let visual = vec![
                "models/player.gltf".to_string(),
                "textures/environment.png".to_string(),
            ];
            assert(visual.deep_view() =~= visual_assets(GameType::ThreeDimensional));
            visual
        },
    };
    let audio = vec!["audio/background_music.ogg".to_string(), "audio/sound_effects.wav".to_string()];
    assert(audio.deep_view() =~= audio_assets());
    append_when_tagged(&mut assets, &spec.features, "audio", audio);
    assets
}

/// Outlines the project for `spec`. Every specification has an outline.
pub fn generate_bevy_project(spec: &GameSpec) -> (outcome: Result<BevyProject, String>)
    ensures
        outcome matches Ok(project) && project@ == outlined_project(spec@),
{
    Ok(
        BevyProject {
            cargo_toml: generate_cargo_toml(spec.name.as_str()),
            main_rs: generate_main_rs(spec),
            components: generate_components(spec),
            systems: generate_systems(spec),
            assets: determine_required_assets(spec),
        },
    )
}

} // verus!
