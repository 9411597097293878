//! A project under construction and the source file it is emitted as.

use crate::model::{
    struct_text, system_text, well_formed_struct, ComponentDefinition, ResourceDefinition,
    StructModel, SystemDefinition, SystemModel,
};
use crate::registry::{
    distinct_names, has_name, insert_unique, inserted, lemma_inserted_keeps_order,
};
use crate::text::contains_text;
use vstd::prelude::*;
use vstd::string::*;

verus! {

/// The view of a [`BevyGameProject`].
pub ghost struct ProjectModel {
    pub name: Seq<char>,
    pub components: Seq<StructModel>,
    pub systems: Seq<SystemModel>,
    pub resources: Seq<StructModel>,
    pub plugins: Seq<Seq<char>>,
    pub optimizations: Seq<Seq<char>>,
}

/// The definitions, plugins and notes of one generated game, each list in
/// insertion order.
#[derive(Clone, Debug)]
pub struct BevyGameProject {
    pub name: String,
    pub components: Vec<ComponentDefinition>,
    pub systems: Vec<SystemDefinition>,
    pub resources: Vec<ResourceDefinition>,
    pub plugins: Vec<String>,
    pub optimizations: Vec<String>,
}

impl View for BevyGameProject {
    type V = ProjectModel;

    open spec fn view(&self) -> ProjectModel {
        ProjectModel {
            name: self.name@,
            components: self.components.deep_view(),
            systems: self.systems.deep_view(),
            resources: self.resources.deep_view(),
            plugins: self.plugins.deep_view(),
            optimizations: self.optimizations.deep_view(),
        }
    }
}

/// The plugin every project registers first.
pub open spec fn default_plugin() -> Seq<char> {
    "DefaultPlugins"@
}

/// A project that holds nothing but its name and the default plugin.
pub open spec fn empty_project(name: Seq<char>) -> ProjectModel {
    ProjectModel {
        name,
        components: Seq::empty(),
        systems: Seq::empty(),
        resources: Seq::empty(),
        plugins: seq![default_plugin()],
        optimizations: Seq::empty(),
    }
}

/// `plugins` after `plugin` was offered: a plugin is registered once.
pub open spec fn with_plugin(plugins: Seq<Seq<char>>, plugin: Seq<char>) -> Seq<Seq<char>> {
    if plugins.contains(plugin) {
        plugins
    } else {
        plugins.push(plugin)
    }
}

/// Every component that `system` queries is among `components`.
pub open spec fn queries_resolved(system: SystemModel, components: Seq<StructModel>) -> bool {
    forall|q: int|
        0 <= q < system.query_components.len() ==> has_name(
            components,
            (#[trigger] system.query_components[q]).component,
        )
}

/// What holds of every project the synthesizer hands out: no name occurs
/// twice among its components, systems, resources or plugins, every
/// component and resource can be declared, every system queries components
/// the project declares, and the default plugin is registered first.
pub open spec fn well_formed(project: ProjectModel) -> bool {
    &&& distinct_names(project.components)
    &&& distinct_names(project.systems)
    &&& distinct_names(project.resources)
    &&& forall|c: int|
        0 <= c < project.components.len() ==> well_formed_struct(#[trigger] project.components[c])
    &&& forall|r: int|
        0 <= r < project.resources.len() ==> well_formed_struct(#[trigger] project.resources[r])
    &&& forall|s: int|
        0 <= s < project.systems.len() ==> queries_resolved(
            #[trigger] project.systems[s],
            project.components,
        )
    &&& project.plugins.len() > 0
    &&& project.plugins[0] == default_plugin()
    &&& project.plugins.no_duplicates()
}

/// The declarations of the first `count` structs, each followed by an empty line.
pub open spec fn struct_blocks(defs: Seq<StructModel>, count: nat) -> Seq<char>
    decreases count,
{
    if count == 0 {
        Seq::empty()
    } else {
        struct_blocks(defs, (count - 1) as nat) + struct_text(defs[count - 1]) + "\n\n"@
    }
}

/// The first `count` systems as functions, each followed by an empty line.
pub open spec fn system_blocks(systems: Seq<SystemModel>, count: nat) -> Seq<char>
    decreases count,
{
    if count == 0 {
        Seq::empty()
    } else {
        system_blocks(systems, (count - 1) as nat) + system_text(systems[count - 1]) + "\n\n"@
    }
}

/// The registration lines of the first `count` plugins.
pub open spec fn plugin_lines(plugins: Seq<Seq<char>>, count: nat) -> Seq<char>
    decreases count,
{
    if count == 0 {
        Seq::empty()
    } else {
        plugin_lines(plugins, (count - 1) as nat) + "        .add_plugins("@ + plugins[count
            - 1] + ")\n"@
    }
}

/// The separator behind entry `index` of a tuple of `total` entries.
pub open spec fn entry_separator(index: int, total: int) -> Seq<char> {
    if index < total - 1 {
        ","@
    } else {
        ""@
    }
}

/// The first `count` entries of the update group: one system name per line,
/// a comma behind each but the last system of the project.
pub open spec fn update_entries(systems: Seq<SystemModel>, count: nat) -> Seq<char>
    decreases count,
{
    if count == 0 {
        Seq::empty()
    } else {
        update_entries(systems, (count - 1) as nat) + "            "@ + systems[count - 1].name
            + entry_separator(count - 1, systems.len() as int) + "\n"@
    }
}

/// The header comment and the imports.
pub open spec fn preamble_text(name: Seq<char>) -> Seq<char> {
    "//! "@ + name + " - AI Generated Bevy Game\n"@
        + "//! Generated by bevy_game_dev with AI assistance\n\n"@ + "use bevy::prelude::*;\n"@
        + "use std::collections::HashMap;\n\n"@
}

/// The entry point: plugins in insertion order, the setup routine, and all
/// systems as one update group.
pub open spec fn entry_point_text(plugins: Seq<Seq<char>>, systems: Seq<SystemModel>) -> Seq<
    char,
> {
    "fn main() {\n"@ + "    App::new()\n"@ + plugin_lines(plugins, plugins.len())
        + "        .add_systems(Startup, setup)\n"@ + "        .add_systems(Update, (\n"@
        + update_entries(systems, systems.len()) + "        ))\n"@ + "        .run();\n"@
        + "}\n\n"@
}

/// The setup routine.
pub open spec fn setup_text() -> Seq<char> {
    "fn setup(mut commands: Commands) {\n"@ + "    // AI-generated setup code\n"@
        + "    commands.spawn(Camera3dBundle::default());\n"@ + "}\n"@
}

/// The whole source file: preamble, components, resources, systems, entry
/// point and setup routine, in that order.
pub open spec fn project_text(project: ProjectModel) -> Seq<char> {
    preamble_text(project.name) + struct_blocks(project.components, project.components.len())
        + struct_blocks(project.resources, project.resources.len()) + system_blocks(
        project.systems,
        project.systems.len(),
    ) + entry_point_text(project.plugins, project.systems) + setup_text()
}

impl BevyGameProject {
    /// An empty project: no definitions, no notes, the default plugin.
    pub fn new(name: String) -> (project: Self)
        ensures
            project@ == empty_project(name@),
            well_formed(project@),
    {
        let mut plugins: Vec<String> = Vec::new();
        plugins.push("DefaultPlugins".to_string());
        let project = BevyGameProject {
            name,
            components: Vec::new(),
            systems: Vec::new(),
            resources: Vec::new(),
            plugins,
            optimizations: Vec::new(),
        };
        assert(project@.plugins =~= seq![default_plugin()]);
        assert(project@.components =~= Seq::empty());
        assert(project@.systems =~= Seq::empty());
        assert(project@.resources =~= Seq::empty());
        assert(project@.optimizations =~= Seq::empty());
        assert(project@.plugins[0] == default_plugin());
        project
    }

    /// Registers `plugin` unless it is registered already.
    pub fn add_plugin(&mut self, plugin: String)
        ensures
            final(self)@ == (ProjectModel {
                plugins: with_plugin(old(self)@.plugins, plugin@),
                ..old(self)@
            }),
            well_formed(old(self)@) ==> well_formed(final(self)@),
    {
        if !contains_text(&self.plugins, plugin.as_str()) {
            self.plugins.push(plugin);
            assert(self.plugins.deep_view() =~= old(self).plugins.deep_view().push(plugin@));
        }
    }

    /// Adds `component` unless a component of that name exists.
    pub fn add_component(&mut self, component: ComponentDefinition)
        ensures
            final(self)@ == (ProjectModel {
                components: inserted(old(self)@.components, component@),
                ..old(self)@
            }),
            well_formed(old(self)@) && well_formed_struct(component@) ==> well_formed(
                final(self)@,
            ),
    {
        proof {
            lemma_inserted_keeps_order(self@.components, component@);
        }
        insert_unique(&mut self.components, component);
    }

    /// Adds `system` unless a system of that name exists.
    pub fn add_system(&mut self, system: SystemDefinition)
        ensures
            final(self)@ == (ProjectModel {
                systems: inserted(old(self)@.systems, system@),
                ..old(self)@
            }),
            well_formed(old(self)@) && queries_resolved(system@, old(self)@.components)
                ==> well_formed(final(self)@),
    {
        proof {
            lemma_inserted_keeps_order(self@.systems, system@);
        }
        insert_unique(&mut self.systems, system);
    }

    /// Adds `resource` unless a resource of that name exists.
    pub fn add_resource(&mut self, resource: ResourceDefinition)
        ensures
            final(self)@ == (ProjectModel {
                resources: inserted(old(self)@.resources, resource@),
                ..old(self)@
            }),
            well_formed(old(self)@) && well_formed_struct(resource@) ==> well_formed(
                final(self)@,
            ),
    {
        proof {
            lemma_inserted_keeps_order(self@.resources, resource@);
        }
        insert_unique(&mut self.resources, resource);
    }

    /// Appends a free-text optimization note.
    pub fn add_optimization(&mut self, note: String)
        ensures
            final(self)@ == (ProjectModel {
                optimizations: old(self)@.optimizations.push(note@),
                ..old(self)@
            }),
            well_formed(old(self)@) ==> well_formed(final(self)@),
    {
        self.optimizations.push(note);
        assert(self.optimizations.deep_view() =~= old(self).optimizations.deep_view().push(
            note@,
        ));
    }

    /// Emits the project as one source file.
    pub fn generate_code(&self) -> (code: String)
        ensures
            code@ == project_text(self@),
    {
        let mut code = String::new();
        code.append("//! ");
        code.append(self.name.as_str());
        code.append(" - AI Generated Bevy Game\n");
        code.append("//! Generated by bevy_game_dev with AI assistance\n\n");
        code.append("use bevy::prelude::*;\n");
        code.append("use std::collections::HashMap;\n\n");
        assert(code@ == preamble_text(self@.name));

        let ghost head = code@;
        let mut c: usize = 0;
        while c < self.components.len()
            invariant
                c <= self.components.len(),
                code@ == head + struct_blocks(self@.components, c as nat),
            decreases self.components.len() - c,
        {
            let text = self.components[c].generate_rust_code();
            code.append(text.as_str());
            code.append("\n\n");
            c = c + 1;
        }

        let ghost head = code@;
        let mut r: usize = 0;
        while r < self.resources.len()
            invariant
                r <= self.resources.len(),
                code@ == head + struct_blocks(self@.resources, r as nat),
            decreases self.resources.len() - r,
        {
            let text = self.resources[r].generate_rust_code();
            code.append(text.as_str());
            code.append("\n\n");
            r = r + 1;
        }

        let ghost head = code@;
        let mut s: usize = 0;
        while s < self.systems.len()
            invariant
                s <= self.systems.len(),
                code@ == head + system_blocks(self@.systems, s as nat),
            decreases self.systems.len() - s,
        {
            let text = self.systems[s].generate_rust_code();
            code.append(text.as_str());
            code.append("\n\n");
            s = s + 1;
        }

        let ghost body = code@;
        code.append("fn main() {\n");
        code.append("    App::new()\n");
        let ghost head = code@;
        let mut p: usize = 0;
        while p < self.plugins.len()
            invariant
                p <= self.plugins.len(),
                code@ == head + plugin_lines(self@.plugins, p as nat),
            decreases self.plugins.len() - p,
        {
            code.append("        .add_plugins(");
            code.append(self.plugins[p].as_str());
            code.append(")\n");
            p = p + 1;
        }
        code.append("        .add_systems(Startup, setup)\n");
        code.append("        .add_systems(Update, (\n");
        let ghost head = code@;
        let mut u: usize = 0;
        while u < self.systems.len()
            invariant
                u <= self.systems.len(),
                code@ == head + update_entries(self@.systems, u as nat),
            decreases self.systems.len() - u,
        {
            code.append("            ");
            code.append(self.systems[u].name.as_str());
            if u < self.systems.len() - 1 {
                code.append(",");
            } else {
                code.append("");
            }
            code.append("\n");
            u = u + 1;
        }
        code.append("        ))\n");
        code.append("        .run();\n");
        code.append("}\n\n");
        assert(code@ == body + entry_point_text(self@.plugins, self@.systems));

        code.append("fn setup(mut commands: Commands) {\n");
        code.append("    // AI-generated setup code\n");
        code.append("    commands.spawn(Camera3dBundle::default());\n");
        code.append("}\n");
        code
    }
}

} // verus!
