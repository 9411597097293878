//! What holds of every synthesized project, proved over the models the
//! synthesizer's contracts are stated in.

use crate::catalog::{
    baseline_components, baseline_resources, baseline_systems, feature_components,
    feature_definitions, feature_systems, game_state_resource, health_component, known_feature,
    marker_component, movement_system, performance_metrics_resource,
    resource_collection_system, resource_storage_component, transform_component, velocity_component, DefinitionsModel,
};
use crate::error::ErrorModel;
use crate::model::{well_formed_struct, OptimizationLevel};
use crate::project::{default_plugin, project_text, queries_resolved, well_formed, ProjectModel};
use crate::registry::{
    distinct_names, has_name, lemma_inserted_all_absorbs, lemma_inserted_all_distinct,
    lemma_inserted_all_extends, lemma_inserted_all_has_offered, lemma_inserted_all_origin, Named,
};
use crate::specification::{ConfigModel, ECSFeature, GameDataModel};
use crate::synthesis::{
    parallel_requested, synthesis_outcome, synthesized_components, synthesized_project,
    synthesized_systems, tuned_all,
};
use vstd::prelude::*;
use vstd::string::*;

verus! {

/// Synthesis and emission depend on the specification alone: whenever the
/// same specification is synthesized twice, the two projects are equal and
/// are emitted as the same text.
pub proof fn lemma_emission_is_deterministic(
    strict: bool,
    data: GameDataModel,
    config: ConfigModel,
    first: ProjectModel,
    second: ProjectModel,
)
    requires
        synthesis_outcome(strict, data, config) == Ok::<ProjectModel, ErrorModel>(first),
        synthesis_outcome(strict, data, config) == Ok::<ProjectModel, ErrorModel>(second),
    ensures
        first == second,
        project_text(first) == project_text(second),
{
}

/// Whatever the feature tags, a synthesized project starts with the
/// baseline: the transform and velocity components, the movement system and
/// the two bookkeeping resources.
pub proof fn lemma_baseline_included(
    name: Seq<char>,
    features: Seq<Seq<char>>,
    level: OptimizationLevel,
    strategies: Seq<ECSFeature>,
)
    ensures
        ({
            let project = synthesized_project(name, features, level, strategies);
            &&& project.components.len() >= 2
            &&& project.components[0] == transform_component()
            &&& project.components[1] == velocity_component()
            &&& project.systems.len() >= 1
            &&& project.systems[0] == movement_system(parallel_requested(strategies), level)
            &&& project.resources == baseline_resources()
        }),
{
    let parallel = parallel_requested(strategies);
    let untuned = ProjectModel {
        name,
        components: synthesized_components(features, features.len()),
        systems: synthesized_systems(features, parallel, level, features.len()),
        resources: baseline_resources(),
        plugins: seq![default_plugin()],
        optimizations: Seq::empty(),
    };
    lemma_tuning_keeps_definitions(untuned, strategies, strategies.len());
    lemma_components_grow(features, 0, features.len());
    lemma_systems_grow(features, parallel, level, 0, features.len());
}

/// Every synthesized project is well formed: in particular, feature tags
/// that offer the same definition leave exactly one of that name.
pub proof fn lemma_synthesized_is_well_formed(
    name: Seq<char>,
    features: Seq<Seq<char>>,
    level: OptimizationLevel,
    strategies: Seq<ECSFeature>,
)
    ensures
        well_formed(synthesized_project(name, features, level, strategies)),
{
    let parallel = parallel_requested(strategies);
    let untuned = ProjectModel {
        name,
        components: synthesized_components(features, features.len()),
        systems: synthesized_systems(features, parallel, level, features.len()),
        resources: baseline_resources(),
        plugins: seq![default_plugin()],
        optimizations: Seq::empty(),
    };
    let project = synthesized_project(name, features, level, strategies);
    lemma_tuning_keeps_definitions(untuned, strategies, strategies.len());
    lemma_tuning_keeps_plugins_distinct(untuned, strategies, strategies.len());
    lemma_component_names_differ(features, features.len());
    lemma_system_names_differ(features, parallel, level, features.len());
    lemma_baseline_names_differ(parallel, level);
    lemma_baseline_is_declarable();
    assert forall|c: int| 0 <= c < project.components.len() implies well_formed_struct(
        #[trigger] project.components[c],
    ) by {
        lemma_components_are_declarable(features, c);
    }
    assert forall|s: int| 0 <= s < project.systems.len() implies queries_resolved(
        #[trigger] project.systems[s],
        project.components,
    ) by {
        lemma_queries_resolved(features, parallel, level, s);
    }
}

/// A system iterates in parallel only by the parallelism strategy: as long
/// as the strategy is not configured, every synthesized system is
/// sequential, whatever the feature tags. With the strategy, every
/// synthesized system is parallel but the resource collection system.
pub proof fn lemma_parallel_only_by_strategy(
    name: Seq<char>,
    features: Seq<Seq<char>>,
    level: OptimizationLevel,
    strategies: Seq<ECSFeature>,
)
    ensures
        ({
            let project = synthesized_project(name, features, level, strategies);
            forall|s: int|
                0 <= s < project.systems.len() ==> if strategies.contains(
                    ECSFeature::SystemParallelization,
                ) {
                    (#[trigger] project.systems[s]).parallel || project.systems[s]
                        == resource_collection_system(level)
                } else {
                    !project.systems[s].parallel
                }
        }),
{
    let parallel = parallel_requested(strategies);
    let untuned = ProjectModel {
        name,
        components: synthesized_components(features, features.len()),
        systems: synthesized_systems(features, parallel, level, features.len()),
        resources: baseline_resources(),
        plugins: seq![default_plugin()],
        optimizations: Seq::empty(),
    };
    let project = synthesized_project(name, features, level, strategies);
    lemma_tuning_keeps_definitions(untuned, strategies, strategies.len());
    assert forall|s: int| 0 <= s < project.systems.len() implies if parallel {
        (#[trigger] project.systems[s]).parallel || project.systems[s]
            == resource_collection_system(level)
    } else {
        !project.systems[s].parallel
    } by {
        lemma_system_follows_strategy(features, parallel, level, features.len(), s);
    }
}

/// A feature tag that is given again changes nothing: everything it
/// offers is present by name already, and the first definition of a name
/// stays.
pub proof fn lemma_repeated_feature_changes_nothing(
    name: Seq<char>,
    features: Seq<Seq<char>>,
    tag: Seq<char>,
    level: OptimizationLevel,
    strategies: Seq<ECSFeature>,
)
    requires
        features.contains(tag),
    ensures
        synthesized_project(name, features.push(tag), level, strategies) == synthesized_project(
            name,
            features,
            level,
            strategies,
        ),
{
    let parallel = parallel_requested(strategies);
    let total = features.len();
    let longer = features.push(tag);
    let position = choose|position: int| 0 <= position < total && features[position] == tag;
    assert(longer[total as int] == tag);

    lemma_components_depend_on_prefix(features, longer, total);
    let components = synthesized_components(features, total);
    let offered = feature_components(tag);
    assert forall|i: int| 0 <= i < offered.len() implies has_name(
        components,
        #[trigger] offered[i].label(),
    ) by {
        assert(feature_components(features[position])[i].label() == offered[i].label());
        lemma_offered_components_present(features, total, position, offered[i].label());
    }
    lemma_inserted_all_absorbs(components, offered, offered.len());

    lemma_systems_depend_on_prefix(features, longer, parallel, level, total);
    let systems = synthesized_systems(features, parallel, level, total);
    let offered_systems = feature_systems(tag, parallel, level);
    assert forall|i: int| 0 <= i < offered_systems.len() implies has_name(
        systems,
        #[trigger] offered_systems[i].label(),
    ) by {
        let before = synthesized_systems(features, parallel, level, position as nat);
        let after = synthesized_systems(features, parallel, level, (position + 1) as nat);
        lemma_inserted_all_has_offered(before, offered_systems, offered_systems.len(), i);
        let k = choose|k: int|
            0 <= k < after.len() && #[trigger] after[k].label() == offered_systems[i].label();
        lemma_systems_grow(features, parallel, level, (position + 1) as nat, total);
        assert(systems[k].label() == offered_systems[i].label());
    }
    lemma_inserted_all_absorbs(systems, offered_systems, offered_systems.len());
}

/// A feature tag the catalog does not know contributes no definition.
pub proof fn lemma_unknown_feature_contributes_nothing(
    tag: Seq<char>,
    parallel: bool,
    level: OptimizationLevel,
)
    requires
        !known_feature(tag),
    ensures
        feature_definitions(tag, parallel, level) == (DefinitionsModel {
            components: Seq::empty(),
            systems: Seq::empty(),
            resources: Seq::empty(),
        }),
{
}

/// A feature tag the catalog does not know changes nothing, wherever it
/// stands among the tags: the project is the one synthesized without it.
pub proof fn lemma_unknown_feature_is_passed_over(
    name: Seq<char>,
    features: Seq<Seq<char>>,
    position: int,
    tag: Seq<char>,
    level: OptimizationLevel,
    strategies: Seq<ECSFeature>,
)
    requires
        !known_feature(tag),
        0 <= position <= features.len(),
    ensures
        synthesized_project(name, features.insert(position, tag), level, strategies)
            == synthesized_project(name, features, level, strategies),
{
    let widened = features.insert(position, tag);
    lemma_components_pass_over_unknown(features, position, tag, widened.len());
    lemma_systems_pass_over_unknown(
        features,
        parallel_requested(strategies),
        level,
        position,
        tag,
        widened.len(),
    );
}

/// A generator that is not strict synthesizes a project from every
/// specification, whatever its feature tags.
pub proof fn lemma_lenient_synthesis_succeeds(data: GameDataModel, config: ConfigModel)
    ensures
        synthesis_outcome(false, data, config) == Ok::<ProjectModel, ErrorModel>(
            synthesized_project(
                config.name,
                data.features,
                config.optimization_level,
                config.ecs_features,
            ),
        ),
{
}

/// Every component a catalog system queries is a baseline component or one
/// that the same feature tag contributes.
pub proof fn lemma_catalog_is_closed(
    tag: Seq<char>,
    parallel: bool,
    level: OptimizationLevel,
    s: int,
    q: int,
)
    requires
        0 <= s < feature_systems(tag, parallel, level).len(),
        0 <= q < feature_systems(tag, parallel, level)[s].query_components.len(),
    ensures
        ({
            let wanted = feature_systems(tag, parallel, level)[s].query_components[q].component;
            has_name(baseline_components(), wanted) || has_name(feature_components(tag), wanted)
        }),
{
    lemma_feature_tags_differ();
    let base = baseline_components();
    let own = feature_components(tag);
    assert(base[0].label() == "Transform"@);
    assert(base[1].label() == "Velocity"@);
    if tag == "combat_system"@ {
        assert(own[0].label() == "Health"@);
    } else if tag == "resource_collection"@ {
        assert(own[0].label() == "ResourceStorage"@);
    } else if tag == "physics"@ {
        assert(own[0].label() == "RigidBody"@);
        assert(own[1].label() == "Collider"@);
    } else if tag == "ai"@ {
        assert(own[0].label() == "AIController"@);
        assert(own[1].label() == "NavigationTarget"@);
    } else if tag == "audio"@ {
    }
}

/// The feature tags of the catalog are seven different strings.
pub proof fn lemma_feature_tags_differ()
    ensures
        "health_system"@ != "resource_management"@,
        "health_system"@ != "combat_system"@,
        "health_system"@ != "resource_collection"@,
        "health_system"@ != "physics"@,
        "health_system"@ != "ai"@,
        "health_system"@ != "audio"@,
        "resource_management"@ != "combat_system"@,
        "resource_management"@ != "resource_collection"@,
        "resource_management"@ != "physics"@,
        "resource_management"@ != "ai"@,
        "resource_management"@ != "audio"@,
        "combat_system"@ != "resource_collection"@,
        "combat_system"@ != "physics"@,
        "combat_system"@ != "ai"@,
        "combat_system"@ != "audio"@,
        "resource_collection"@ != "physics"@,
        "resource_collection"@ != "ai"@,
        "resource_collection"@ != "audio"@,
        "physics"@ != "ai"@,
        "physics"@ != "audio"@,
        "ai"@ != "audio"@,
{
    reveal_strlit("health_system");
    reveal_strlit("resource_management");
    reveal_strlit("combat_system");
    reveal_strlit("resource_collection");
    reveal_strlit("physics");
    reveal_strlit("ai");
    reveal_strlit("audio");
    assert("health_system"@.len() == 13 && "combat_system"@.len() == 13);
    assert("resource_management"@.len() == 19 && "resource_collection"@.len() == 19);
    assert("physics"@.len() == 7 && "ai"@.len() == 2 && "audio"@.len() == 5);
    assert("health_system"@[0] != "combat_system"@[0]);
    assert("resource_management"@[9] != "resource_collection"@[9]);
}

/// The components and resources of the baseline can be declared.
pub proof fn lemma_baseline_is_declarable()
    ensures
        forall|i: int|
            0 <= i < baseline_components().len() ==> well_formed_struct(
                #[trigger] baseline_components()[i],
            ),
        forall|i: int|
            0 <= i < baseline_resources().len() ==> well_formed_struct(
                #[trigger] baseline_resources()[i],
            ),
{
    reveal_strlit("Transform");
    reveal_strlit("position");
    reveal_strlit("rotation");
    reveal_strlit("scale");
    assert("position"@[0] != "rotation"@[0]);
    assert("position"@.len() != "scale"@.len());
    assert("rotation"@.len() != "scale"@.len());
    assert(well_formed_struct(transform_component()));
    reveal_strlit("Velocity");
    reveal_strlit("linear");
    reveal_strlit("angular");
    assert("linear"@.len() != "angular"@.len());
    assert(well_formed_struct(velocity_component()));
    reveal_strlit("GameState");
    reveal_strlit("current_level");
    reveal_strlit("score");
    reveal_strlit("game_mode");
    assert("current_level"@.len() != "score"@.len());
    assert("current_level"@.len() != "game_mode"@.len());
    assert("score"@.len() != "game_mode"@.len());
    assert(well_formed_struct(game_state_resource()));
    reveal_strlit("PerformanceMetrics");
    reveal_strlit("fps");
    reveal_strlit("entity_count");
    reveal_strlit("memory_usage");
    assert("fps"@.len() != "entity_count"@.len());
    assert("fps"@.len() != "memory_usage"@.len());
    assert("entity_count"@[0] != "memory_usage"@[0]);
    assert(well_formed_struct(performance_metrics_resource()));
}

/// The components a feature tag contributes can be declared.
pub proof fn lemma_feature_components_are_declarable(tag: Seq<char>, i: int)
    requires
        0 <= i < feature_components(tag).len(),
    ensures
        well_formed_struct(feature_components(tag)[i]),
{
    reveal_strlit("Health");
    reveal_strlit("current");
    reveal_strlit("max");
    reveal_strlit("regeneration_rate");
    assert("current"@.len() != "max"@.len());
    assert("current"@.len() != "regeneration_rate"@.len());
    assert("max"@.len() != "regeneration_rate"@.len());
    assert(well_formed_struct(health_component()));
    reveal_strlit("ResourceStorage");
    reveal_strlit("resources");
    reveal_strlit("capacity");
    assert("resources"@.len() != "capacity"@.len());
    assert(well_formed_struct(resource_storage_component()));
    reveal_strlit("RigidBody");
    reveal_strlit("Collider");
    reveal_strlit("AIController");
    reveal_strlit("NavigationTarget");
    assert(well_formed_struct(marker_component("RigidBody"@)));
    assert(well_formed_struct(marker_component("Collider"@)));
    assert(well_formed_struct(marker_component("AIController"@)));
    assert(well_formed_struct(marker_component("NavigationTarget"@)));
}

/// The strategies touch plugins and notes only.
proof fn lemma_tuning_keeps_definitions(
    project: ProjectModel,
    strategies: Seq<ECSFeature>,
    count: nat,
)
    ensures
        tuned_all(project, strategies, count).name == project.name,
        tuned_all(project, strategies, count).components == project.components,
        tuned_all(project, strategies, count).systems == project.systems,
        tuned_all(project, strategies, count).resources == project.resources,
    decreases count,
{
    if count > 0 {
        lemma_tuning_keeps_definitions(project, strategies, (count - 1) as nat);
    }
}

/// The strategies register no plugin twice and leave the first plugin first.
proof fn lemma_tuning_keeps_plugins_distinct(
    project: ProjectModel,
    strategies: Seq<ECSFeature>,
    count: nat,
)
    requires
        project.plugins.len() > 0,
        project.plugins.no_duplicates(),
    ensures
        tuned_all(project, strategies, count).plugins.len() > 0,
        tuned_all(project, strategies, count).plugins[0] == project.plugins[0],
        tuned_all(project, strategies, count).plugins.no_duplicates(),
    decreases count,
{
    if count > 0 {
        lemma_tuning_keeps_plugins_distinct(project, strategies, (count - 1) as nat);
    }
}

/// Looking up more feature tags only appends components.
proof fn lemma_components_grow(features: Seq<Seq<char>>, count: nat, total: nat)
    requires
        count <= total,
    ensures
        synthesized_components(features, count).len() <= synthesized_components(
            features,
            total,
        ).len(),
        forall|i: int|
            0 <= i < synthesized_components(features, count).len() ==> synthesized_components(
                features,
                total,
            )[i] == synthesized_components(features, count)[i],
    decreases total,
{
    if count < total {
        lemma_components_grow(features, count, (total - 1) as nat);
        let offered = feature_components(features[total - 1]);
        lemma_inserted_all_extends(
            synthesized_components(features, (total - 1) as nat),
            offered,
            offered.len(),
        );
    }
}

/// Looking up more feature tags only appends systems.
proof fn lemma_systems_grow(
    features: Seq<Seq<char>>,
    parallel: bool,
    level: OptimizationLevel,
    count: nat,
    total: nat,
)
    requires
        count <= total,
    ensures
        synthesized_systems(features, parallel, level, count).len() <= synthesized_systems(
            features,
            parallel,
            level,
            total,
        ).len(),
        forall|i: int|
            0 <= i < synthesized_systems(features, parallel, level, count).len()
                ==> synthesized_systems(features, parallel, level, total)[i] == synthesized_systems(
                features,
                parallel,
                level,
                count,
            )[i],
    decreases total,
{
    if count < total {
        lemma_systems_grow(features, parallel, level, count, (total - 1) as nat);
        let offered = feature_systems(features[total - 1], parallel, level);
        lemma_inserted_all_extends(
            synthesized_systems(features, parallel, level, (total - 1) as nat),
            offered,
            offered.len(),
        );
    }
}

/// The baseline itself holds no name twice.
proof fn lemma_baseline_names_differ(parallel: bool, level: OptimizationLevel)
    ensures
        distinct_names(baseline_components()),
        distinct_names(baseline_systems(parallel, level)),
        distinct_names(baseline_resources()),
{
    reveal_strlit("Transform");
    reveal_strlit("Velocity");
    reveal_strlit("GameState");
    reveal_strlit("PerformanceMetrics");
    assert("Transform"@.len() == 9 && "Velocity"@.len() == 8);
    assert("GameState"@.len() == 9 && "PerformanceMetrics"@.len() == 18);
}

/// No two components of a synthesized list share a name.
proof fn lemma_component_names_differ(features: Seq<Seq<char>>, count: nat)
    ensures
        distinct_names(synthesized_components(features, count)),
    decreases count,
{
    if count == 0 {
        lemma_baseline_names_differ(false, OptimizationLevel::Debug);
    } else {
        lemma_component_names_differ(features, (count - 1) as nat);
        let offered = feature_components(features[count - 1]);
        lemma_inserted_all_distinct(
            synthesized_components(features, (count - 1) as nat),
            offered,
            offered.len(),
        );
    }
}

/// No two systems of a synthesized list share a name.
proof fn lemma_system_names_differ(
    features: Seq<Seq<char>>,
    parallel: bool,
    level: OptimizationLevel,
    count: nat,
)
    ensures
        distinct_names(synthesized_systems(features, parallel, level, count)),
    decreases count,
{
    if count == 0 {
        lemma_baseline_names_differ(parallel, level);
    } else {
        lemma_system_names_differ(features, parallel, level, (count - 1) as nat);
        let offered = feature_systems(features[count - 1], parallel, level);
        lemma_inserted_all_distinct(
            synthesized_systems(features, parallel, level, (count - 1) as nat),
            offered,
            offered.len(),
        );
    }
}

/// Every component that one of the first `count` feature tags offers is
/// among the synthesized components by name.
proof fn lemma_offered_components_present(
    features: Seq<Seq<char>>,
    total: nat,
    position: int,
    wanted: Seq<char>,
)
    requires
        0 <= position < total,
        has_name(feature_components(features[position]), wanted),
    ensures
        has_name(synthesized_components(features, total), wanted),
{
    let offered = feature_components(features[position]);
    let i = choose|i: int| 0 <= i < offered.len() && #[trigger] offered[i].label() == wanted;
    let before = synthesized_components(features, position as nat);
    let after = synthesized_components(features, (position + 1) as nat);
    lemma_inserted_all_has_offered(before, offered, offered.len(), i);
    let k = choose|k: int| 0 <= k < after.len() && #[trigger] after[k].label() == wanted;
    lemma_components_grow(features, (position + 1) as nat, total);
    assert(synthesized_components(features, total)[k].label() == wanted);
}

/// Every synthesized system is the movement system or one that a feature
/// tag in front of `count` offers.
proof fn lemma_system_origin(
    features: Seq<Seq<char>>,
    parallel: bool,
    level: OptimizationLevel,
    count: nat,
    k: int,
)
    requires
        0 <= k < synthesized_systems(features, parallel, level, count).len(),
    ensures
        ({
            let system = synthesized_systems(features, parallel, level, count)[k];
            ||| system == movement_system(parallel, level)
            ||| exists|position: int, i: int|
                0 <= position < count && 0 <= i < feature_systems(
                    features[position],
                    parallel,
                    level,
                ).len() && #[trigger] feature_systems(features[position], parallel, level)[i]
                    == system
        }),
    decreases count,
{
    if count > 0 {
        let before = synthesized_systems(features, parallel, level, (count - 1) as nat);
        let offered = feature_systems(features[count - 1], parallel, level);
        let system = synthesized_systems(features, parallel, level, count)[k];
        lemma_inserted_all_extends(before, offered, offered.len());
        lemma_inserted_all_origin(before, offered, offered.len(), k);
        if k < before.len() {
            lemma_system_origin(features, parallel, level, (count - 1) as nat, k);
        } else {
            let i = choose|i: int| 0 <= i < offered.len() && offered[i] == system;
            assert(feature_systems(features[count - 1], parallel, level)[i] == system);
        }
    }
}

/// Every system of a synthesized project queries components that the
/// project declares.
proof fn lemma_queries_resolved(
    features: Seq<Seq<char>>,
    parallel: bool,
    level: OptimizationLevel,
    k: int,
)
    requires
        0 <= k < synthesized_systems(features, parallel, level, features.len()).len(),
    ensures
        queries_resolved(
            synthesized_systems(features, parallel, level, features.len())[k],
            synthesized_components(features, features.len()),
        ),
{
    let total = features.len();
    let components = synthesized_components(features, total);
    let system = synthesized_systems(features, parallel, level, total)[k];
    lemma_components_grow(features, 0, total);
    assert(components[0].label() == "Transform"@);
    assert(components[1].label() == "Velocity"@);
    lemma_system_origin(features, parallel, level, total, k);
    if system == movement_system(parallel, level) {
    } else {
        let (position, i) = choose|position: int, i: int|
            0 <= position < total && 0 <= i < feature_systems(
                features[position],
                parallel,
                level,
            ).len() && #[trigger] feature_systems(features[position], parallel, level)[i]
                == system;
        assert forall|q: int| 0 <= q < system.query_components.len() implies has_name(
            components,
            (#[trigger] system.query_components[q]).component,
        ) by {
            let wanted = system.query_components[q].component;
            lemma_catalog_is_closed(features[position], parallel, level, i, q);
            if has_name(baseline_components(), wanted) {
                let b = choose|b: int|
                    0 <= b < baseline_components().len() && #[trigger] baseline_components()[b].label()
                        == wanted;
                assert(components[b].label() == wanted);
            } else {
                lemma_offered_components_present(features, total, position, wanted);
            }
        }
    }
}

/// Every synthesized component is a baseline component or one that a
/// feature tag in front of `count` offers.
proof fn lemma_component_origin(features: Seq<Seq<char>>, count: nat, k: int)
    requires
        0 <= k < synthesized_components(features, count).len(),
    ensures
        ({
            let component = synthesized_components(features, count)[k];
            ||| k < baseline_components().len() && component == baseline_components()[k]
            ||| exists|position: int, i: int|
                0 <= position < count && 0 <= i < feature_components(features[position]).len()
                    && #[trigger] feature_components(features[position])[i] == component
        }),
    decreases count,
{
    if count > 0 {
        let before = synthesized_components(features, (count - 1) as nat);
        let offered = feature_components(features[count - 1]);
        let component = synthesized_components(features, count)[k];
        lemma_inserted_all_extends(before, offered, offered.len());
        lemma_inserted_all_origin(before, offered, offered.len(), k);
        if k < before.len() {
            lemma_component_origin(features, (count - 1) as nat, k);
        } else {
            let i = choose|i: int| 0 <= i < offered.len() && offered[i] == component;
            assert(feature_components(features[count - 1])[i] == component);
        }
    }
}

/// Every synthesized component can be declared.
proof fn lemma_components_are_declarable(features: Seq<Seq<char>>, k: int)
    requires
        0 <= k < synthesized_components(features, features.len()).len(),
    ensures
        well_formed_struct(synthesized_components(features, features.len())[k]),
{
    let component = synthesized_components(features, features.len())[k];
    lemma_component_origin(features, features.len(), k);
    lemma_baseline_is_declarable();
    if k < baseline_components().len() && component == baseline_components()[k] {
    } else {
        let (position, i) = choose|position: int, i: int|
            0 <= position < features.len() && 0 <= i < feature_components(
                features[position],
            ).len() && #[trigger] feature_components(features[position])[i] == component;
        lemma_feature_components_are_declarable(features[position], i);
    }
}

/// An unknown feature tag leaves the components as they are without it.
proof fn lemma_components_pass_over_unknown(
    features: Seq<Seq<char>>,
    position: int,
    tag: Seq<char>,
    count: nat,
)
    requires
        !known_feature(tag),
        0 <= position <= features.len(),
        count <= features.len() + 1,
    ensures
        count <= position ==> synthesized_components(features.insert(position, tag), count)
            == synthesized_components(features, count),
        count > position ==> synthesized_components(features.insert(position, tag), count)
            == synthesized_components(features, (count - 1) as nat),
    decreases count,
{
    if count > 0 {
        lemma_components_pass_over_unknown(features, position, tag, (count - 1) as nat);
        let widened = features.insert(position, tag);
        if count - 1 < position {
            assert(widened[count - 1] == features[count - 1]);
        } else if count - 1 == position {
            assert(widened[count - 1] == tag);
        } else {
            assert(widened[count - 1] == features[count - 2]);
        }
    }
}

/// An unknown feature tag leaves the systems as they are without it.
proof fn lemma_systems_pass_over_unknown(
    features: Seq<Seq<char>>,
    parallel: bool,
    level: OptimizationLevel,
    position: int,
    tag: Seq<char>,
    count: nat,
)
    requires
        !known_feature(tag),
        0 <= position <= features.len(),
        count <= features.len() + 1,
    ensures
        count <= position ==> synthesized_systems(
            features.insert(position, tag),
            parallel,
            level,
            count,
        ) == synthesized_systems(features, parallel, level, count),
        count > position ==> synthesized_systems(
            features.insert(position, tag),
            parallel,
            level,
            count,
        ) == synthesized_systems(features, parallel, level, (count - 1) as nat),
    decreases count,
{
    if count > 0 {
        lemma_systems_pass_over_unknown(
            features,
            parallel,
            level,
            position,
            tag,
            (count - 1) as nat,
        );
        let widened = features.insert(position, tag);
        if count - 1 < position {
            assert(widened[count - 1] == features[count - 1]);
        } else if count - 1 == position {
            assert(widened[count - 1] == tag);
        } else {
            assert(widened[count - 1] == features[count - 2]);
        }
    }
}

/// The components after `count` feature tags depend on those tags alone.
proof fn lemma_components_depend_on_prefix(
    first: Seq<Seq<char>>,
    second: Seq<Seq<char>>,
    count: nat,
)
    requires
        count <= first.len(),
        count <= second.len(),
        forall|i: int| 0 <= i < count ==> first[i] == second[i],
    ensures
        synthesized_components(first, count) == synthesized_components(second, count),
    decreases count,
{
    if count > 0 {
        lemma_components_depend_on_prefix(first, second, (count - 1) as nat);
    }
}

/// The systems after `count` feature tags depend on those tags alone.
proof fn lemma_systems_depend_on_prefix(
    first: Seq<Seq<char>>,
    second: Seq<Seq<char>>,
    parallel: bool,
    level: OptimizationLevel,
    count: nat,
)
    requires
        count <= first.len(),
        count <= second.len(),
        forall|i: int| 0 <= i < count ==> first[i] == second[i],
    ensures
        synthesized_systems(first, parallel, level, count) == synthesized_systems(
            second,
            parallel,
            level,
            count,
        ),
    decreases count,
{
    if count > 0 {
        lemma_systems_depend_on_prefix(first, second, parallel, level, (count - 1) as nat);
    }
}

/// A synthesized system carries the flag it was offered with; the resource
/// collection system is the one that is never parallel.
pub proof fn lemma_system_follows_strategy(
    features: Seq<Seq<char>>,
    parallel: bool,
    level: OptimizationLevel,
    count: nat,
    k: int,
)
    requires
        0 <= k < synthesized_systems(features, parallel, level, count).len(),
    ensures
        ({
            let system = synthesized_systems(features, parallel, level, count)[k];
            if parallel {
                system.parallel || system == resource_collection_system(level)
            } else {
                !system.parallel
            }
        }),
{
    let system = synthesized_systems(features, parallel, level, count)[k];
    lemma_system_origin(features, parallel, level, count, k);
    if system == movement_system(parallel, level) {
    } else {
        let (position, i) = choose|position: int, i: int|
            0 <= position < count && 0 <= i < feature_systems(
                features[position],
                parallel,
                level,
            ).len() && #[trigger] feature_systems(features[position], parallel, level)[i]
                == system;
    }
}

} // verus!
