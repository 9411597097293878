//! The project synthesizer: from a game's feature tags and a configuration
//! to the project that holds its definitions.

use crate::catalog::{
    baseline_component_list, baseline_resource_list, baseline_resources, baseline_system_list,
    components_for, is_known_feature, known_feature, systems_for,
};
use crate::error::{ErrorModel, GenerationError};
use crate::guarantees::{lemma_synthesized_is_well_formed, lemma_system_follows_strategy};
use crate::model::{ComponentDefinition, ResourceDefinition, SystemDefinition};
use crate::project::{well_formed, BevyGameProject, ProjectModel};
use crate::registry::insert_all;
use crate::specification::{BevyGameConfig, ECSFeature, GameData, GameDataModel};
use crate::synthesis::{
    generation_outcome, lemma_leading_known_is, parallel_requested, rejected_feature,
    synthesis_outcome, synthesized_components, synthesized_systems, tuned_all,
};
use vstd::prelude::*;

verus! {

/// The view of a synthesis result.
pub open spec fn outcome_view(outcome: Result<BevyGameProject, GenerationError>) -> Result<
    ProjectModel,
    ErrorModel,
> {
    match outcome {
        Ok(project) => Ok(project@),
        Err(error) => Err(error@),
    }
}

/// The view of what the description analysis answered.
pub open spec fn upstream_view(upstream: Result<GameData, GenerationError>) -> Result<
    GameDataModel,
    ErrorModel,
> {
    match upstream {
        Ok(data) => Ok(data@),
        Err(error) => Err(error@),
    }
}

/// Turns feature tags and a configuration into projects.
#[derive(Clone, Copy, Debug)]
pub struct BevyGameGenerator {
    strict: bool,
}

impl BevyGameGenerator {
    /// Whether a feature tag the catalog does not know is an error.
    pub closed spec fn strict(&self) -> bool {
        self.strict
    }

    /// A generator that passes over feature tags it does not know.
    pub fn new() -> (generator: Self)
        ensures
            !generator.strict(),
    {
        BevyGameGenerator { strict: false }
    }

    /// A generator that rejects unknown feature tags when `strict` is set.
    pub fn with_strict_mode(strict: bool) -> (generator: Self)
        ensures
            generator.strict() == strict,
    {
        BevyGameGenerator { strict }
    }

    /// Whether a feature tag the catalog does not know is an error.
    pub fn is_strict(&self) -> (strict: bool)
        ensures
            strict == self.strict(),
    {
        self.strict
    }

    /// The components of the game: the baseline, then what each feature tag
    /// contributes, in the order the tags are given.
    pub fn generate_components(&self, game_data: &GameData) -> (components: Vec<
        ComponentDefinition,
    >)
        ensures
            components.deep_view() == synthesized_components(
                game_data@.features,
                game_data@.features.len(),
            ),
    {
        let mut components = baseline_component_list();
        let mut i: usize = 0;
        while i < game_data.features.len()
            invariant
                i <= game_data.features.len(),
                components.deep_view() == synthesized_components(game_data@.features, i as nat),
            decreases game_data.features.len() - i,
        {
            let offered = components_for(game_data.features[i].as_str());
            insert_all(&mut components, offered);
            i = i + 1;
        }
        components
    }

    /// The systems of the game: the movement system, then what each feature
    /// tag contributes, in the order the tags are given. A system iterates
    /// in parallel only when the parallelism strategy is configured.
    pub fn generate_systems(&self, game_data: &GameData, config: &BevyGameConfig) -> (systems:
        Vec<SystemDefinition>)
        ensures
            systems.deep_view() == synthesized_systems(
                game_data@.features,
                parallel_requested(config@.ecs_features),
                config@.optimization_level,
                game_data@.features.len(),
            ),
            !config@.ecs_features.contains(ECSFeature::SystemParallelization) ==> forall|i: int|
                0 <= i < systems.len() ==> !(#[trigger] systems.deep_view()[i]).parallel,
    {
        proof {
            let parallel = parallel_requested(config@.ecs_features);
            let level = config@.optimization_level;
            let all = synthesized_systems(
                game_data@.features,
                parallel,
                level,
                game_data@.features.len(),
            );
            assert forall|i: int| 0 <= i < all.len() && !parallel implies !(#[trigger] all[i]).parallel by {
                lemma_system_follows_strategy(
                    game_data@.features,
                    parallel,
                    level,
                    game_data@.features.len(),
                    i,
                );
            }
        }
        let parallel = config.has_feature(ECSFeature::SystemParallelization);
        let level = config.optimization_level;
        let mut systems = baseline_system_list(parallel, level);
        let mut i: usize = 0;
        while i < game_data.features.len()
            invariant
                i <= game_data.features.len(),
                systems.deep_view() == synthesized_systems(
                    game_data@.features,
                    parallel,
                    level,
                    i as nat,
                ),
            decreases game_data.features.len() - i,
        {
            let offered = systems_for(game_data.features[i].as_str(), parallel, level);
            insert_all(&mut systems, offered);
            i = i + 1;
        }
        systems
    }

    /// The resources of the game: the same two for every game.
    pub fn generate_resources(&self, game_data: &GameData) -> (resources: Vec<ResourceDefinition>)
        ensures
            resources.deep_view() == baseline_resources(),
    {
        baseline_resource_list()
    }

    /// Applies the configured strategies in order: spatial partitioning and
    /// memory pooling register a plugin, entity batching and component
    /// packing leave a note, the others change nothing here.
    pub fn apply_optimizations(&self, project: &mut BevyGameProject, config: &BevyGameConfig)
        ensures
            final(project)@ == tuned_all(
                old(project)@,
                config@.ecs_features,
                config@.ecs_features.len(),
            ),
    {
        let mut i: usize = 0;
        while i < config.ecs_features.len()
            invariant
                i <= config.ecs_features.len(),
                project@ == tuned_all(old(project)@, config@.ecs_features, i as nat),
            decreases config.ecs_features.len() - i,
        {
            match config.ecs_features[i] {
                ECSFeature::SpatialPartitioning => {
                    project.add_plugin("SpatialPartitioningPlugin".to_string());
                },
                ECSFeature::EntityBatching => {
                    project.add_optimization("Entity batching enabled".to_string());
                },
                ECSFeature::ComponentPacking => {
                    project.add_optimization("Dense component storage".to_string());
                },
                ECSFeature::MemoryPooling => {
                    project.add_plugin("MemoryPoolPlugin".to_string());
                },
                ECSFeature::SystemParallelization | ECSFeature::QueryOptimization => {},
            }
            i = i + 1;
        }
    }

    /// The first feature tag the catalog does not know, if there is one.
    pub fn find_unknown_feature(&self, game_data: &GameData) -> (unknown: Option<String>)
        ensures
            match unknown {
                Some(tag) => rejected_feature(game_data@.features) == Some(tag@),
                None => rejected_feature(game_data@.features) is None,
            },
    {
        let mut i: usize = 0;
        while i < game_data.features.len()
            invariant
                i <= game_data.features.len(),
                forall|k: int| 0 <= k < i ==> known_feature(#[trigger] game_data@.features[k]),
            decreases game_data.features.len() - i,
        {
            if !is_known_feature(game_data.features[i].as_str()) {
                proof {
                    lemma_leading_known_is(game_data@.features, i as int);
                }
                return Some(game_data.features[i].clone());
            }
            i = i + 1;
        }
        proof {
            lemma_leading_known_is(game_data@.features, i as int);
        }
        None
    }

    /// Synthesizes the project for `game_data` under `config`. A strict
    /// generator fails on the first feature tag the catalog does not know;
    /// any other generator always succeeds.
    pub fn create_bevy_project(&self, game_data: GameData, config: BevyGameConfig) -> (outcome:
        Result<BevyGameProject, GenerationError>)
        ensures
            outcome_view(outcome) == synthesis_outcome(self.strict(), game_data@, config@),
            outcome matches Ok(project) ==> well_formed(project@),
    {
        proof {
            lemma_synthesized_is_well_formed(
                config@.name,
                game_data@.features,
                config@.optimization_level,
                config@.ecs_features,
            );
        }
        if self.strict {
            match self.find_unknown_feature(&game_data) {
                Some(tag) => {
                    return Err(GenerationError::MalformedSpecification(tag));
                },
                None => {},
            }
        }
        let mut project = BevyGameProject::new(config.name.clone());
        project.components = self.generate_components(&game_data);
        project.systems = self.generate_systems(&game_data, &config);
        project.resources = self.generate_resources(&game_data);
        self.apply_optimizations(&mut project, &config);
        Ok(project)
    }

    /// Finishes a generation once the description analysis has answered:
    /// its failure is handed on unchanged, its report is synthesized.
    pub fn generate_game(
        &self,
        upstream: Result<GameData, GenerationError>,
        config: BevyGameConfig,
    ) -> (outcome: Result<BevyGameProject, GenerationError>)
        ensures
            outcome_view(outcome) == generation_outcome(
                self.strict(),
                upstream_view(upstream),
                config@,
            ),
            outcome matches Ok(project) ==> well_formed(project@),
    {
        match upstream {
            Ok(game_data) => self.create_bevy_project(game_data, config),
            Err(error) => Err(error),
        }
    }
}

} // verus!
