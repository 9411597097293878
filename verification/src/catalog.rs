//! The feature catalog: the definitions every project starts from and what
//! each feature tag adds to them.

use crate::model::{
    ComponentDefinition, ComponentQuery, OptimizationLevel, QueryAccess, QueryModel,
    ResourceDefinition, StructModel, SystemDefinition, SystemModel,
};
use crate::text::same_text;
use vstd::prelude::*;

verus! {

/// A batch of definitions, as the baseline or one feature tag contributes it.
#[derive(Clone, Debug)]
pub struct FeatureDefinitions {
    pub components: Vec<ComponentDefinition>,
    pub systems: Vec<SystemDefinition>,
    pub resources: Vec<ResourceDefinition>,
}

/// The view of [`FeatureDefinitions`].
pub ghost struct DefinitionsModel {
    pub components: Seq<StructModel>,
    pub systems: Seq<SystemModel>,
    pub resources: Seq<StructModel>,
}

impl View for FeatureDefinitions {
    type V = DefinitionsModel;

    open spec fn view(&self) -> DefinitionsModel {
        DefinitionsModel {
            components: self.components.deep_view(),
            systems: self.systems.deep_view(),
            resources: self.resources.deep_view(),
        }
    }
}

/// A component with the given fields that derives `Component` and `Debug`.
pub open spec fn plain_component(name: Seq<char>, fields: Seq<(Seq<char>, Seq<char>)>)
    -> StructModel {
    StructModel { name, fields, traits: seq!["Component"@, "Debug"@] }
}

/// The `Transform` component: position, rotation and scale.
pub open spec fn transform_component() -> StructModel {
    plain_component(
        "Transform"@,
        seq![("position"@, "Vec3"@), ("rotation"@, "Quat"@), ("scale"@, "Vec3"@)],
    )
}

/// The `Velocity` component: linear and angular velocity.
pub open spec fn velocity_component() -> StructModel {
    StructModel {
        name: "Velocity"@,
        fields: seq![("linear"@, "Vec3"@), ("angular"@, "Vec3"@)],
        traits: seq!["Component"@, "Debug"@, "Default"@],
    }
}

/// The `Health` component: current and maximal health and the rate of
/// regeneration.
pub open spec fn health_component() -> StructModel {
    plain_component(
        "Health"@,
        seq![("current"@, "f32"@), ("max"@, "f32"@), ("regeneration_rate"@, "f32"@)],
    )
}

/// The `ResourceStorage` component: the stored resources and the capacity.
pub open spec fn resource_storage_component() -> StructModel {
    plain_component(
        "ResourceStorage"@,
        seq![("resources"@, "HashMap<ResourceType, f32>"@), ("capacity"@, "f32"@)],
    )
}

/// A component that carries no data of its own.
pub open spec fn marker_component(name: Seq<char>) -> StructModel {
    plain_component(name, Seq::empty())
}

/// The `GameState` resource: level, score and game mode.
pub open spec fn game_state_resource() -> StructModel {
    StructModel {
        name: "GameState"@,
        fields: seq![("current_level"@, "u32"@), ("score"@, "u64"@), ("game_mode"@, "GameMode"@)],
        traits: seq!["Resource"@, "Debug"@],
    }
}

/// The `PerformanceMetrics` resource: frame rate, entity count and memory
/// use.
pub open spec fn performance_metrics_resource() -> StructModel {
    StructModel {
        name: "PerformanceMetrics"@,
        fields: seq![("fps"@, "f32"@), ("entity_count"@, "usize"@), ("memory_usage"@, "u64"@)],
        traits: seq!["Resource"@, "Debug"@, "Default"@],
    }
}

/// A query entry that reads `component`.
pub open spec fn reads(component: Seq<char>) -> QueryModel {
    QueryModel { access: QueryAccess::Read, component }
}

/// A query entry that reads and writes `component`.
pub open spec fn writes(component: Seq<char>) -> QueryModel {
    QueryModel { access: QueryAccess::ReadWrite, component }
}

/// The movement system: it writes transforms, reads velocities and takes
/// the time.
pub open spec fn movement_system(parallel: bool, level: OptimizationLevel) -> SystemModel {
    SystemModel {
        name: "movement_system"@,
        query_components: seq![writes("Transform"@), reads("Velocity"@)],
        resources: seq!["Res<Time>"@],
        parallel,
        optimization_level: level,
    }
}

/// The combat system: it writes health, reads transforms and takes the
/// time and a writer of combat events.
pub open spec fn combat_system(parallel: bool, level: OptimizationLevel) -> SystemModel {
    SystemModel {
        name: "combat_system"@,
        query_components: seq![writes("Health"@), reads("Transform"@)],
        resources: seq!["Res<Time>"@, "EventWriter<CombatEvent>"@],
        parallel,
        optimization_level: level,
    }
}

/// The resource collection system: it writes resource storages, reads
/// transforms and takes the global resources for writing. It never
/// iterates in parallel.
pub open spec fn resource_collection_system(level: OptimizationLevel) -> SystemModel {
    SystemModel {
        name: "resource_collection_system"@,
        query_components: seq![writes("ResourceStorage"@), reads("Transform"@)],
        resources: seq!["ResMut<GlobalResources>"@],
        parallel: false,
        optimization_level: level,
    }
}

/// The physics system: it writes transforms and velocities, reads rigid
/// bodies and colliders and takes the time.
pub open spec fn physics_system(parallel: bool, level: OptimizationLevel) -> SystemModel {
    SystemModel {
        name: "physics_system"@,
        query_components: seq![
            writes("Transform"@),
            writes("Velocity"@),
            reads("RigidBody"@),
            reads("Collider"@),
        ],
        resources: seq!["Res<Time>"@],
        parallel,
        optimization_level: level,
    }
}

/// The AI system: it writes controllers, reads navigation targets and
/// transforms and takes the time.
pub open spec fn ai_system(parallel: bool, level: OptimizationLevel) -> SystemModel {
    SystemModel {
        name: "ai_system"@,
        query_components: seq![
            writes("AIController"@),
            reads("NavigationTarget"@),
            reads("Transform"@),
        ],
        resources: seq!["Res<Time>"@],
        parallel,
        optimization_level: level,
    }
}

/// The audio system: it reads transforms.
pub open spec fn audio_system(parallel: bool, level: OptimizationLevel) -> SystemModel {
    SystemModel {
        name: "audio_system"@,
        query_components: seq![reads("Transform"@)],
        resources: Seq::empty(),
        parallel,
        optimization_level: level,
    }
}

/// The components every project holds whatever its feature tags.
pub open spec fn baseline_components() -> Seq<StructModel> {
    seq![transform_component(), velocity_component()]
}

/// The system every project holds; it runs in parallel when `parallel` is set.
pub open spec fn baseline_systems(parallel: bool, level: OptimizationLevel) -> Seq<SystemModel> {
    seq![movement_system(parallel, level)]
}

/// The bookkeeping resources every project holds.
pub open spec fn baseline_resources() -> Seq<StructModel> {
    seq![game_state_resource(), performance_metrics_resource()]
}

/// What every project holds whatever its feature tags.
pub open spec fn baseline_definitions(parallel: bool, level: OptimizationLevel)
    -> DefinitionsModel {
    DefinitionsModel {
        components: baseline_components(),
        systems: baseline_systems(parallel, level),
        resources: baseline_resources(),
    }
}

/// Whether the catalog has an entry for `tag`.
pub open spec fn known_feature(tag: Seq<char>) -> bool {
    ||| tag == "health_system"@
    ||| tag == "resource_management"@
    ||| tag == "combat_system"@
    ||| tag == "resource_collection"@
    ||| tag == "physics"@
    ||| tag == "ai"@
    ||| tag == "audio"@
}

/// The components `tag` contributes. A tag that brings a system brings the
/// components that system queries, so two tags may offer the same component.
pub open spec fn feature_components(tag: Seq<char>) -> Seq<StructModel> {
    if tag == "health_system"@ || tag == "combat_system"@ {
        seq![health_component()]
    } else if tag == "resource_management"@ || tag == "resource_collection"@ {
        seq![resource_storage_component()]
    } else if tag == "physics"@ {
        seq![marker_component("RigidBody"@), marker_component("Collider"@)]
    } else if tag == "ai"@ {
        seq![marker_component("AIController"@), marker_component("NavigationTarget"@)]
    } else {
        Seq::empty()
    }
}

/// The systems `tag` contributes. Those that may run in parallel do so when
/// `parallel` is set and no system does otherwise; resource collection
/// never does.
pub open spec fn feature_systems(tag: Seq<char>, parallel: bool, level: OptimizationLevel) -> Seq<
    SystemModel,
> {
    if tag == "combat_system"@ {
        seq![combat_system(parallel, level)]
    } else if tag == "resource_collection"@ {
        seq![resource_collection_system(level)]
    } else if tag == "physics"@ {
        seq![physics_system(parallel, level)]
    } else if tag == "ai"@ {
        seq![ai_system(parallel, level)]
    } else if tag == "audio"@ {
        seq![audio_system(parallel, level)]
    } else {
        Seq::empty()
    }
}

/// What `tag` contributes; nothing for a tag the catalog does not know.
pub open spec fn feature_definitions(tag: Seq<char>, parallel: bool, level: OptimizationLevel)
    -> DefinitionsModel {
    DefinitionsModel {
        components: feature_components(tag),
        systems: feature_systems(tag, parallel, level),
        resources: Seq::empty(),
    }
}

fn field(name: &str, ty: &str) -> (f: (String, String))
    ensures
        f.deep_view() == (name@, ty@),
{
    (name.to_string(), ty.to_string())
}

fn plain(name: &str, fields: Vec<(String, String)>) -> (c: ComponentDefinition)
    ensures
        c@ == plain_component(name@, fields.deep_view()),
{
    let c = ComponentDefinition {
        name: name.to_string(),
        fields,
        traits: vec!["Component".to_string(), "Debug".to_string()],
    };
    assert(c@.traits =~= seq!["Component"@, "Debug"@]);
    c
}

fn marker(name: &str) -> (c: ComponentDefinition)
    ensures
        c@ == marker_component(name@),
{
    let fields: Vec<(String, String)> = Vec::new();
    assert(fields.deep_view() =~= Seq::empty());
    plain(name, fields)
}

fn transform() -> (c: ComponentDefinition)
    ensures
        c@ == transform_component(),
{
    let fields = vec![field("position", "Vec3"), field("rotation", "Quat"), field("scale", "Vec3")];
    assert(fields.deep_view() =~= seq![
        ("position"@, "Vec3"@),
        ("rotation"@, "Quat"@),
        ("scale"@, "Vec3"@),
    ]);
    plain("Transform", fields)
}

fn velocity() -> (c: ComponentDefinition)
    ensures
        c@ == velocity_component(),
{
    let c = ComponentDefinition {
        name: "Velocity".to_string(),
        fields: vec![field("linear", "Vec3"), field("angular", "Vec3")],
        traits: vec!["Component".to_string(), "Debug".to_string(), "Default".to_string()],
    };
    assert(c@.fields =~= seq![("linear"@, "Vec3"@), ("angular"@, "Vec3"@)]);
    assert(c@.traits =~= seq!["Component"@, "Debug"@, "Default"@]);
    c
}

fn health() -> (c: ComponentDefinition)
    ensures
        c@ == health_component(),
{
    let fields = vec![
        field("current", "f32"),
        field("max", "f32"),
        field("regeneration_rate", "f32"),
    ];
    assert(fields.deep_view() =~= seq![
        ("current"@, "f32"@),
        ("max"@, "f32"@),
        ("regeneration_rate"@, "f32"@),
    ]);
    plain("Health", fields)
}

fn resource_storage() -> (c: ComponentDefinition)
    ensures
        c@ == resource_storage_component(),
{
    let fields = vec![field("resources", "HashMap<ResourceType, f32>"), field("capacity", "f32")];
    assert(fields.deep_view() =~= seq![
        ("resources"@, "HashMap<ResourceType, f32>"@),
        ("capacity"@, "f32"@),
    ]);
    plain("ResourceStorage", fields)
}

fn game_state() -> (r: ResourceDefinition)
    ensures
        r@ == game_state_resource(),
{
    let r = ResourceDefinition {
        name: "GameState".to_string(),
        fields: vec![
            field("current_level", "u32"),
            field("score", "u64"),
            field("game_mode", "GameMode"),
        ],
        traits: vec!["Resource".to_string(), "Debug".to_string()],
    };
    assert(r@.fields =~= seq![
        ("current_level"@, "u32"@),
        ("score"@, "u64"@),
        ("game_mode"@, "GameMode"@),
    ]);
    assert(r@.traits =~= seq!["Resource"@, "Debug"@]);
    r
}

fn performance_metrics() -> (r: ResourceDefinition)
    ensures
        r@ == performance_metrics_resource(),
{
    let r = ResourceDefinition {
        name: "PerformanceMetrics".to_string(),
        fields: vec![
            field("fps", "f32"),
            field("entity_count", "usize"),
            field("memory_usage", "u64"),
        ],
        traits: vec!["Resource".to_string(), "Debug".to_string(), "Default".to_string()],
    };
    assert(r@.fields =~= seq![
        ("fps"@, "f32"@),
        ("entity_count"@, "usize"@),
        ("memory_usage"@, "u64"@),
    ]);
    assert(r@.traits =~= seq!["Resource"@, "Debug"@, "Default"@]);
    r
}

fn read(component: &str) -> (q: ComponentQuery)
    ensures
        q@ == reads(component@),
{
    ComponentQuery { access: QueryAccess::Read, component: component.to_string() }
}

fn write(component: &str) -> (q: ComponentQuery)
    ensures
        q@ == writes(component@),
{
    ComponentQuery { access: QueryAccess::ReadWrite, component: component.to_string() }
}

fn system(
    name: &str,
    query_components: Vec<ComponentQuery>,
    resources: Vec<String>,
    parallel: bool,
    level: OptimizationLevel,
) -> (s: SystemDefinition)
    ensures
        s@ == (SystemModel {
            name: name@,
            query_components: query_components.deep_view(),
            resources: resources.deep_view(),
            parallel,
            optimization_level: level,
        }),
{
    SystemDefinition {
        name: name.to_string(),
        query_components,
        resources,
        parallel,
        optimization_level: level,
    }
}

fn movement(parallel: bool, level: OptimizationLevel) -> (s: SystemDefinition)
    ensures
        s@ == movement_system(parallel, level),
{
    let queries = vec![write("Transform"), read("Velocity")];
    let resources = vec!["Res<Time>".to_string()];
    assert(queries.deep_view() =~= seq![writes("Transform"@), reads("Velocity"@)]);
    assert(resources.deep_view() =~= seq!["Res<Time>"@]);
    system("movement_system", queries, resources, parallel, level)
}

fn combat(parallel: bool, level: OptimizationLevel) -> (s: SystemDefinition)
    ensures
        s@ == combat_system(parallel, level),
{
    let queries = vec![write("Health"), read("Transform")];
    let resources = vec!["Res<Time>".to_string(), "EventWriter<CombatEvent>".to_string()];
    assert(queries.deep_view() =~= seq![writes("Health"@), reads("Transform"@)]);
    assert(resources.deep_view() =~= seq!["Res<Time>"@, "EventWriter<CombatEvent>"@]);
    system("combat_system", queries, resources, parallel, level)
}

fn resource_collection(level: OptimizationLevel) -> (s: SystemDefinition)
    ensures
        s@ == resource_collection_system(level),
{
    let queries = vec![write("ResourceStorage"), read("Transform")];
    let resources = vec!["ResMut<GlobalResources>".to_string()];
    assert(queries.deep_view() =~= seq![writes("ResourceStorage"@), reads("Transform"@)]);
    assert(resources.deep_view() =~= seq!["ResMut<GlobalResources>"@]);
    system("resource_collection_system", queries, resources, false, level)
}

fn physics(parallel: bool, level: OptimizationLevel) -> (s: SystemDefinition)
    ensures
        s@ == physics_system(parallel, level),
{
    let queries = vec![write("Transform"), write("Velocity"), read("RigidBody"), read("Collider")];
    let resources = vec!["Res<Time>".to_string()];
    assert(queries.deep_view() =~= seq![
        writes("Transform"@),
        writes("Velocity"@),
        reads("RigidBody"@),
        reads("Collider"@),
    ]);
    assert(resources.deep_view() =~= seq!["Res<Time>"@]);
    system("physics_system", queries, resources, parallel, level)
}

fn ai(parallel: bool, level: OptimizationLevel) -> (s: SystemDefinition)
    ensures
        s@ == ai_system(parallel, level),
{
    let queries = vec![write("AIController"), read("NavigationTarget"), read("Transform")];
    let resources = vec!["Res<Time>".to_string()];
    assert(queries.deep_view() =~= seq![
        writes("AIController"@),
        reads("NavigationTarget"@),
        reads("Transform"@),
    ]);
    assert(resources.deep_view() =~= seq!["Res<Time>"@]);
    system("ai_system", queries, resources, parallel, level)
}

fn audio(parallel: bool, level: OptimizationLevel) -> (s: SystemDefinition)
    ensures
        s@ == audio_system(parallel, level),
{
    let queries = vec![read("Transform")];
    let resources: Vec<String> = Vec::new();
    assert(queries.deep_view() =~= seq![reads("Transform"@)]);
    assert(resources.deep_view() =~= Seq::empty());
    system("audio_system", queries, resources, parallel, level)
}

/// The components every project starts from.
pub fn baseline_component_list() -> (components: Vec<ComponentDefinition>)
    ensures
        components.deep_view() == baseline_components(),
{
    let components = vec![transform(), velocity()];
    assert(components.deep_view() =~= baseline_components());
    components
}

/// The systems every project starts from.
pub fn baseline_system_list(parallel: bool, level: OptimizationLevel) -> (systems: Vec<
    SystemDefinition,
>)
    ensures
        systems.deep_view() == baseline_systems(parallel, level),
{
    let systems = vec![movement(parallel, level)];
    assert(systems.deep_view() =~= baseline_systems(parallel, level));
    systems
}

/// The resources every project starts from.
pub fn baseline_resource_list() -> (resources: Vec<ResourceDefinition>)
    ensures
        resources.deep_view() == baseline_resources(),
{
    let resources = vec![game_state(), performance_metrics()];
    assert(resources.deep_view() =~= baseline_resources());
    resources
}

/// The definitions every project starts from.
pub fn baseline(parallel: bool, level: OptimizationLevel) -> (defs: FeatureDefinitions)
    ensures
        defs@ == baseline_definitions(parallel, level),
{
    FeatureDefinitions {
        components: baseline_component_list(),
        systems: baseline_system_list(parallel, level),
        resources: baseline_resource_list(),
    }
}

/// Whether the catalog has an entry for `tag`.
pub fn is_known_feature(tag: &str) -> (known: bool)
    ensures
        known == known_feature(tag@),
{
    same_text(tag, "health_system") || same_text(tag, "resource_management") || same_text(
        tag,
        "combat_system",
    ) || same_text(tag, "resource_collection") || same_text(tag, "physics") || same_text(tag, "ai")
        || same_text(tag, "audio")
}

/// The feature tags the catalog has an entry for.
pub fn feature_tags() -> (tags: Vec<String>)
    ensures
        forall|tag: Seq<char>| tags.deep_view().contains(tag) <==> known_feature(tag),
{
    let tags = vec![
        "health_system".to_string(),
        "resource_management".to_string(),
        "combat_system".to_string(),
        "resource_collection".to_string(),
        "physics".to_string(),
        "ai".to_string(),
        "audio".to_string(),
    ];
    proof {
        let listed = tags.deep_view();
        assert(listed =~= seq![
            "health_system"@,
            "resource_management"@,
            "combat_system"@,
            "resource_collection"@,
            "physics"@,
            "ai"@,
            "audio"@,
        ]);
        assert(listed[0] == "health_system"@);
        assert(listed[1] == "resource_management"@);
        assert(listed[2] == "combat_system"@);
        assert(listed[3] == "resource_collection"@);
        assert(listed[4] == "physics"@);
        assert(listed[5] == "ai"@);
        assert(listed[6] == "audio"@);
    }
    tags
}

/// The components the feature `tag` contributes.
pub fn components_for(tag: &str) -> (components: Vec<ComponentDefinition>)
    ensures
        components.deep_view() == feature_components(tag@),
{
    if same_text(tag, "health_system") || same_text(tag, "combat_system") {
        let components = vec![health()];
        assert(components.deep_view() =~= seq![health_component()]);
        components
    } else if same_text(tag, "resource_management") || same_text(tag, "resource_collection") {
        let components = vec![resource_storage()];
        assert(components.deep_view() =~= seq![resource_storage_component()]);
        components
    } else if same_text(tag, "physics") {
        let components = vec![marker("RigidBody"), marker("Collider")];
        assert(components.deep_view() =~= seq![
            marker_component("RigidBody"@),
            marker_component("Collider"@),
        ]);
        components
    } else if same_text(tag, "ai") {
        let components = vec![marker("AIController"), marker("NavigationTarget")];
        assert(components.deep_view() =~= seq![
            marker_component("AIController"@),
            marker_component("NavigationTarget"@),
        ]);
        components
    } else {
        let components: Vec<ComponentDefinition> = Vec::new();
        assert(components.deep_view() =~= Seq::empty());
        components
    }
}

/// The systems the feature `tag` contributes.
pub fn systems_for(tag: &str, parallel: bool, level: OptimizationLevel) -> (systems: Vec<
    SystemDefinition,
>)
    ensures
        systems.deep_view() == feature_systems(tag@, parallel, level),
{
    if same_text(tag, "combat_system") {
        let systems = vec![combat(parallel, level)];
        assert(systems.deep_view() =~= seq![combat_system(parallel, level)]);
        systems
    } else if same_text(tag, "resource_collection") {
        let systems = vec![resource_collection(level)];
        assert(systems.deep_view() =~= seq![resource_collection_system(level)]);
        systems
    } else if same_text(tag, "physics") {
        let systems = vec![physics(parallel, level)];
        assert(systems.deep_view() =~= seq![physics_system(parallel, level)]);
        systems
    } else if same_text(tag, "ai") {
        let systems = vec![ai(parallel, level)];
        assert(systems.deep_view() =~= seq![ai_system(parallel, level)]);
        systems
    } else if same_text(tag, "audio") {
        let systems = vec![audio(parallel, level)];
        assert(systems.deep_view() =~= seq![audio_system(parallel, level)]);
        systems
    } else {
        let systems: Vec<SystemDefinition> = Vec::new();
        assert(systems.deep_view() =~= Seq::empty());
        systems
    }
}

/// What the feature `tag` contributes: nothing when the catalog does not
/// know the tag.
pub fn definitions_for(tag: &str, parallel: bool, level: OptimizationLevel) -> (defs:
    FeatureDefinitions)
    ensures
        defs@ == feature_definitions(tag@, parallel, level),
{
    let resources: Vec<ResourceDefinition> = Vec::new();
    assert(resources.deep_view() =~= Seq::empty());
    FeatureDefinitions {
        components: components_for(tag),
        systems: systems_for(tag, parallel, level),
        resources,
    }
}

} // verus!
