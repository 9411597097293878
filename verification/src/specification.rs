//! What a caller hands in: the structured description of a game and the
//! configuration of its generation.

use crate::model::OptimizationLevel;
use vstd::prelude::*;

verus! {

/// Whether a game plays in the plane or in space.
#[derive(Clone, Copy, Debug, PartialEq, Eq, Structural)]
pub enum GameType {
    TwoDimensional,
    ThreeDimensional,
}

/// How demanding a game is to build, lowest first.
#[derive(Clone, Copy, Debug, PartialEq, Eq, Structural)]
pub enum ComplexityLevel {
    Beginner,
    Intermediate,
    Advanced,
}

impl ComplexityLevel {
    /// Position in the order `Beginner < Intermediate < Advanced`.
    pub open spec fn spec_rank(self) -> u8 {
        match self {
            ComplexityLevel::Beginner => 0,
            ComplexityLevel::Intermediate => 1,
            ComplexityLevel::Advanced => 2,
        }
    }

    /// Position in the order `Beginner < Intermediate < Advanced`.
    #[verifier::when_used_as_spec(spec_rank)]
    pub fn rank(self) -> (r: u8)
        ensures
            r == self.spec_rank(),
    {
        match self {
            ComplexityLevel::Beginner => 0,
            ComplexityLevel::Intermediate => 1,
            ComplexityLevel::Advanced => 2,
        }
    }
}

/// A strategy the generated project may be tuned with.
#[derive(Clone, Copy, Debug, PartialEq, Eq, Structural)]
pub enum ECSFeature {
    SpatialPartitioning,
    EntityBatching,
    SystemParallelization,
    ComponentPacking,
    MemoryPooling,
    QueryOptimization,
}

/// A game as its author specifies it.
#[derive(Clone, Debug)]
pub struct GameSpec {
    pub name: String,
    pub description: String,
    pub game_type: GameType,
    pub features: Vec<String>,
    pub complexity: ComplexityLevel,
}

/// The view of a [`GameSpec`].
pub ghost struct GameSpecModel {
    pub name: Seq<char>,
    pub description: Seq<char>,
    pub game_type: GameType,
    pub features: Seq<Seq<char>>,
    pub complexity: ComplexityLevel,
}

impl View for GameSpec {
    type V = GameSpecModel;

    open spec fn view(&self) -> GameSpecModel {
        GameSpecModel {
            name: self.name@,
            description: self.description@,
            game_type: self.game_type,
            features: self.features.deep_view(),
            complexity: self.complexity,
        }
    }
}

/// A game as the description analysis reports it: free-text tiers and tags.
#[derive(Clone, Debug)]
pub struct GameData {
    pub title: String,
    pub engine: String,
    pub complexity: String,
    pub features: Vec<String>,
}

/// The view of [`GameData`].
pub ghost struct GameDataModel {
    pub title: Seq<char>,
    pub engine: Seq<char>,
    pub complexity: Seq<char>,
    pub features: Seq<Seq<char>>,
}

impl View for GameData {
    type V = GameDataModel;

    open spec fn view(&self) -> GameDataModel {
        GameDataModel {
            title: self.title@,
            engine: self.engine@,
            complexity: self.complexity@,
            features: self.features.deep_view(),
        }
    }
}

/// How a project is to be generated.
#[derive(Clone, Debug)]
pub struct BevyGameConfig {
    pub name: String,
    pub description: String,
    pub target_fps: u32,
    pub max_entities: usize,
    pub enable_physics: bool,
    pub enable_networking: bool,
    pub optimization_level: OptimizationLevel,
    pub ecs_features: Vec<ECSFeature>,
}

/// The view of a [`BevyGameConfig`].
pub ghost struct ConfigModel {
    pub name: Seq<char>,
    pub description: Seq<char>,
    pub target_fps: u32,
    pub max_entities: usize,
    pub enable_physics: bool,
    pub enable_networking: bool,
    pub optimization_level: OptimizationLevel,
    pub ecs_features: Seq<ECSFeature>,
}

impl View for BevyGameConfig {
    type V = ConfigModel;

    open spec fn view(&self) -> ConfigModel {
        ConfigModel {
            name: self.name@,
            description: self.description@,
            target_fps: self.target_fps,
            max_entities: self.max_entities,
            enable_physics: self.enable_physics,
            enable_networking: self.enable_networking,
            optimization_level: self.optimization_level,
            ecs_features: self.ecs_features@,
        }
    }
}

impl BevyGameConfig {
    /// Whether `feature` is among the configured strategies.
    pub fn has_feature(&self, feature: ECSFeature) -> (found: bool)
        ensures
            found == self@.ecs_features.contains(feature),
    {
        let mut i: usize = 0;
        while i < self.ecs_features.len()
            invariant
                i <= self.ecs_features.len(),
                forall|k: int| 0 <= k < i ==> self.ecs_features@[k] != feature,
            decreases self.ecs_features.len() - i,
        {
            if self.ecs_features[i] == feature {
                return true;
            }
            i = i + 1;
        }
        false
    }
}

} // verus!
