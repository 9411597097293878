//! What synthesis computes, as functions of the specification: the
//! definitions a list of feature tags stands for, what the tuning
//! strategies add, and when a strict generator refuses.

use crate::catalog::{
    baseline_components, baseline_resources, baseline_systems, feature_components,
    feature_systems, known_feature,
};
use crate::error::ErrorModel;
use crate::model::{OptimizationLevel, StructModel, SystemModel};
use crate::project::{default_plugin, with_plugin, ProjectModel};
use crate::registry::inserted_all;
use crate::specification::{ConfigModel, ECSFeature, GameDataModel};
use vstd::prelude::*;

verus! {

/// The components of a project after the first `count` feature tags were
/// looked up in order: the baseline, then what each tag offers, a name that
/// is already taken being skipped.
pub open spec fn synthesized_components(features: Seq<Seq<char>>, count: nat) -> Seq<StructModel>
    decreases count,
{
    if count == 0 {
        baseline_components()
    } else {
        let offered = feature_components(features[count - 1]);
        inserted_all(
            synthesized_components(features, (count - 1) as nat),
            offered,
            offered.len(),
        )
    }
}

/// The systems of a project after the first `count` feature tags were
/// looked up in order.
pub open spec fn synthesized_systems(
    features: Seq<Seq<char>>,
    parallel: bool,
    level: OptimizationLevel,
    count: nat,
) -> Seq<SystemModel>
    decreases count,
{
    if count == 0 {
        baseline_systems(parallel, level)
    } else {
        let offered = feature_systems(features[count - 1], parallel, level);
        inserted_all(
            synthesized_systems(features, parallel, level, (count - 1) as nat),
            offered,
            offered.len(),
        )
    }
}

/// What one strategy does to a project: it registers a plugin, leaves a
/// note, or changes nothing.
pub open spec fn tuned(project: ProjectModel, feature: ECSFeature) -> ProjectModel {
    match feature {
        ECSFeature::SpatialPartitioning => ProjectModel {
            plugins: with_plugin(project.plugins, "SpatialPartitioningPlugin"@),
            ..project
        },
        ECSFeature::EntityBatching => ProjectModel {
            optimizations: project.optimizations.push("Entity batching enabled"@),
            ..project
        },
        ECSFeature::ComponentPacking => ProjectModel {
            optimizations: project.optimizations.push("Dense component storage"@),
            ..project
        },
        ECSFeature::MemoryPooling => ProjectModel {
            plugins: with_plugin(project.plugins, "MemoryPoolPlugin"@),
            ..project
        },
        ECSFeature::SystemParallelization | ECSFeature::QueryOptimization => project,
    }
}

/// A project after the first `count` strategies were applied in order.
pub open spec fn tuned_all(project: ProjectModel, features: Seq<ECSFeature>, count: nat)
    -> ProjectModel
    decreases count,
{
    if count == 0 {
        project
    } else {
        tuned(tuned_all(project, features, (count - 1) as nat), features[count - 1])
    }
}

/// Whether the strategies ask for systems to run in parallel.
pub open spec fn parallel_requested(strategies: Seq<ECSFeature>) -> bool {
    strategies.contains(ECSFeature::SystemParallelization)
}

/// The project a specification stands for.
pub open spec fn synthesized_project(
    name: Seq<char>,
    features: Seq<Seq<char>>,
    level: OptimizationLevel,
    strategies: Seq<ECSFeature>,
) -> ProjectModel {
    tuned_all(
        ProjectModel {
            name,
            components: synthesized_components(features, features.len()),
            systems: synthesized_systems(
                features,
                parallel_requested(strategies),
                level,
                features.len(),
            ),
            resources: baseline_resources(),
            plugins: seq![default_plugin()],
            optimizations: Seq::empty(),
        },
        strategies,
        strategies.len(),
    )
}

/// How many feature tags at the front are known to the catalog.
pub open spec fn leading_known(features: Seq<Seq<char>>) -> nat
    decreases features.len(),
{
    if features.len() == 0 || !known_feature(features.first()) {
        0
    } else {
        1 + leading_known(features.drop_first())
    }
}

/// The first feature tag the catalog does not know, if there is one.
pub open spec fn rejected_feature(features: Seq<Seq<char>>) -> Option<Seq<char>> {
    let known = leading_known(features);
    if known < features.len() {
        Some(features[known as int])
    } else {
        None
    }
}

/// What synthesis yields: in strict mode the first unknown feature tag is
/// an error; otherwise unknown tags are passed over.
pub open spec fn synthesis_outcome(strict: bool, data: GameDataModel, config: ConfigModel)
    -> Result<ProjectModel, ErrorModel> {
    if strict && rejected_feature(data.features) is Some {
        Err(ErrorModel::MalformedSpecification(rejected_feature(data.features)->0))
    } else {
        Ok(
            synthesized_project(
                config.name,
                data.features,
                config.optimization_level,
                config.ecs_features,
            ),
        )
    }
}

/// What generation yields once the description analysis has answered: its
/// failure as it is, or the outcome of synthesis on what it reported.
pub open spec fn generation_outcome(
    strict: bool,
    upstream: Result<GameDataModel, ErrorModel>,
    config: ConfigModel,
) -> Result<ProjectModel, ErrorModel> {
    match upstream {
        Ok(data) => synthesis_outcome(strict, data, config),
        Err(error) => Err(error),
    }
}

/// `leading_known` is the one position that ends a run of known tags.
pub proof fn lemma_leading_known_is(features: Seq<Seq<char>>, n: int)
    requires
        0 <= n <= features.len(),
        forall|i: int| 0 <= i < n ==> known_feature(#[trigger] features[i]),
        n < features.len() ==> !known_feature(features[n]),
    ensures
        leading_known(features) == n,
    decreases features.len(),
{
    if features.len() == 0 || !known_feature(features.first()) {
        if n > 0 {
            assert(known_feature(features[0]));
        }
    } else {
        let rest = features.drop_first();
        assert forall|i: int| 0 <= i < n - 1 implies known_feature(#[trigger] rest[i]) by {
            assert(rest[i] == features[i + 1]);
        }
        lemma_leading_known_is(rest, n - 1);
    }
}

} // verus!
