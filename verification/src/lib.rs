//! Generates Bevy game projects from feature-tagged game descriptions and
//! advises on how to tune them.
//!
//! The [`catalog`] maps feature tags to component, system and resource
//! definitions ([`model`]). The [`generator`] collects them into a
//! [`project`] as [`synthesis`] lays down, and the project renders itself
//! as source text. The [`outline`] lists what a game needs without defining
//! it, and the [`advisor`] reports canned tuning notes. What holds of every
//! generated project is proved in [`guarantees`], what the emitted text
//! contains in [`emission`].

pub mod advisor;
pub mod catalog;
pub mod emission;
pub mod error;
pub mod generator;
pub mod guarantees;
pub mod model;
pub mod outline;
pub mod project;
pub mod registry;
pub mod report;
pub mod specification;
pub mod synthesis;
pub mod text;

pub use advisor::{OptimizationResult, RustGameDevBridge};
pub use error::GenerationError;
pub use generator::BevyGameGenerator;
pub use model::{
    ComponentDefinition, ComponentQuery, OptimizationLevel, QueryAccess, ResourceDefinition,
    SystemDefinition,
};
pub use outline::{generate_bevy_project, BevyProject};
pub use project::BevyGameProject;
pub use report::{ReportEntry, ReportValue};
pub use specification::{
    BevyGameConfig, ComplexityLevel, ECSFeature, GameData, GameSpec, GameType,
};
