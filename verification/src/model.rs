//! The definition model: components, resources and systems as plain data,
//! their mathematical views, and the text each one renders to.

use crate::text::{
    is_valid_identifier, join, joined, leading_part, lowercase, lowercased, prefix_before,
    same_text, valid_identifier,
};
use vstd::prelude::*;
use vstd::string::*;

verus! {

/// Quality target of a generated project, lowest first.
#[derive(Clone, Copy, Debug, PartialEq, Eq, Structural)]
pub enum OptimizationLevel {
    Debug,
    Development,
    Release,
    Maximum,
}

impl OptimizationLevel {
    /// Position in the order `Debug < Development < Release < Maximum`.
    pub open spec fn spec_rank(self) -> u8 {
        match self {
            OptimizationLevel::Debug => 0,
            OptimizationLevel::Development => 1,
            OptimizationLevel::Release => 2,
            OptimizationLevel::Maximum => 3,
        }
    }

    /// Position in the order `Debug < Development < Release < Maximum`.
    #[verifier::when_used_as_spec(spec_rank)]
    pub fn rank(self) -> (r: u8)
        ensures
            r == self.spec_rank(),
    {
        match self {
            OptimizationLevel::Debug => 0,
            OptimizationLevel::Development => 1,
            OptimizationLevel::Release => 2,
            OptimizationLevel::Maximum => 3,
        }
    }
}

/// How a system touches a component it queries.
#[derive(Clone, Copy, Debug, PartialEq, Eq, Structural)]
pub enum QueryAccess {
    Read,
    ReadWrite,
}

/// One entry of a system's query: an access mode and the component's name.
#[derive(Clone, Debug)]
pub struct ComponentQuery {
    pub access: QueryAccess,
    pub component: String,
}

/// The view of a [`ComponentQuery`].
pub ghost struct QueryModel {
    pub access: QueryAccess,
    pub component: Seq<char>,
}

impl View for ComponentQuery {
    type V = QueryModel;

    open spec fn view(&self) -> QueryModel {
        QueryModel { access: self.access, component: self.component@ }
    }
}

impl DeepView for ComponentQuery {
    type V = QueryModel;

    open spec fn deep_view(&self) -> QueryModel {
        self@
    }
}

/// View shared by components and resources: a named struct with typed
/// fields and derived traits.
pub ghost struct StructModel {
    pub name: Seq<char>,
    pub fields: Seq<(Seq<char>, Seq<char>)>,
    pub traits: Seq<Seq<char>>,
}

/// Per-entity data attached to entities of the generated game.
#[derive(Clone, Debug)]
pub struct ComponentDefinition {
    pub name: String,
    pub fields: Vec<(String, String)>,
    pub traits: Vec<String>,
}

/// Process-wide singleton state of the generated game.
#[derive(Clone, Debug)]
pub struct ResourceDefinition {
    pub name: String,
    pub fields: Vec<(String, String)>,
    pub traits: Vec<String>,
}

impl View for ComponentDefinition {
    type V = StructModel;

    open spec fn view(&self) -> StructModel {
        StructModel {
            name: self.name@,
            fields: self.fields.deep_view(),
            traits: self.traits.deep_view(),
        }
    }
}

impl DeepView for ComponentDefinition {
    type V = StructModel;

    open spec fn deep_view(&self) -> StructModel {
        self@
    }
}

impl View for ResourceDefinition {
    type V = StructModel;

    open spec fn view(&self) -> StructModel {
        StructModel {
            name: self.name@,
            fields: self.fields.deep_view(),
            traits: self.traits.deep_view(),
        }
    }
}

impl DeepView for ResourceDefinition {
    type V = StructModel;

    open spec fn deep_view(&self) -> StructModel {
        self@
    }
}

/// The view of a [`SystemDefinition`].
pub ghost struct SystemModel {
    pub name: Seq<char>,
    pub query_components: Seq<QueryModel>,
    pub resources: Seq<Seq<char>>,
    pub parallel: bool,
    pub optimization_level: OptimizationLevel,
}

/// A unit of per-frame logic: what it queries, which resources it takes and
/// whether its body iterates in parallel.
#[derive(Clone, Debug)]
pub struct SystemDefinition {
    pub name: String,
    pub query_components: Vec<ComponentQuery>,
    pub resources: Vec<String>,
    pub parallel: bool,
    pub optimization_level: OptimizationLevel,
}

impl View for SystemDefinition {
    type V = SystemModel;

    open spec fn view(&self) -> SystemModel {
        SystemModel {
            name: self.name@,
            query_components: self.query_components.deep_view(),
            resources: self.resources.deep_view(),
            parallel: self.parallel,
            optimization_level: self.optimization_level,
        }
    }
}

impl DeepView for SystemDefinition {
    type V = SystemModel;

    open spec fn deep_view(&self) -> SystemModel {
        self@
    }
}

/// No two of `fields` share a name.
pub open spec fn distinct_field_names(fields: Seq<(Seq<char>, Seq<char>)>) -> bool {
    forall|i: int, j: int|
        0 <= i < j < fields.len() ==> (#[trigger] fields[i]).0 != (#[trigger] fields[j]).0
}

/// What holds of a component or resource that can be declared: its name is
/// an identifier and no two of its fields share a name.
pub open spec fn well_formed_struct(def: StructModel) -> bool {
    valid_identifier(def.name) && distinct_field_names(def.fields)
}

/// The attribute line that derives `traits`; nothing when there are none.
pub open spec fn derive_line(traits: Seq<Seq<char>>) -> Seq<char> {
    if traits.len() == 0 {
        Seq::empty()
    } else {
        "#[derive("@ + joined(traits, ", "@) + ")]\n"@
    }
}

/// One public field of a struct declaration.
pub open spec fn field_line(field: (Seq<char>, Seq<char>)) -> Seq<char> {
    "    pub "@ + field.0 + ": "@ + field.1 + ",\n"@
}

/// The lines of the first `count` fields, in declaration order.
pub open spec fn field_lines(fields: Seq<(Seq<char>, Seq<char>)>, count: nat) -> Seq<char>
    decreases count,
{
    if count == 0 {
        Seq::empty()
    } else {
        field_lines(fields, (count - 1) as nat) + field_line(fields[count - 1])
    }
}

/// Declaration of a component or resource: the derive line, then the struct
/// with its fields in declaration order.
pub open spec fn struct_text(def: StructModel) -> Seq<char> {
    derive_line(def.traits) + "pub struct "@ + def.name + " {\n"@ + field_lines(
        def.fields,
        def.fields.len(),
    ) + "}"@
}

/// A query entry as it stands inside `Query<(..)>`.
pub open spec fn query_text(query: QueryModel) -> Seq<char> {
    match query.access {
        QueryAccess::Read => "&"@ + query.component,
        QueryAccess::ReadWrite => "&mut "@ + query.component,
    }
}

/// The rendered entries of a query, in order.
pub open spec fn query_texts(queries: Seq<QueryModel>) -> Seq<Seq<char>> {
    Seq::new(queries.len(), |i: int| query_text(queries[i]))
}

/// The query parameter of a system; nothing when it queries no component.
pub open spec fn query_parameter(queries: Seq<QueryModel>) -> Seq<char> {
    if queries.len() == 0 {
        Seq::empty()
    } else {
        "    mut query: Query<("@ + joined(query_texts(queries), ", "@) + ")>,\n"@
    }
}

/// A parameter line `name: ty`.
pub open spec fn parameter_line(name: Seq<char>, ty: Seq<char>) -> Seq<char> {
    "    "@ + name + ": "@ + ty + ",\n"@
}

/// The name a resource parameter gets: the lowercase form of what stands in
/// front of the resource type's first `<`.
pub open spec fn resource_parameter_name(resource: Seq<char>) -> Seq<char> {
    lowercased(prefix_before(resource, '<'))
}

/// The parameter lines of the first `count` resources.
pub open spec fn resource_parameters(resources: Seq<Seq<char>>, count: nat) -> Seq<char>
    decreases count,
{
    if count == 0 {
        Seq::empty()
    } else {
        resource_parameters(resources, (count - 1) as nat) + parameter_line(
            resource_parameter_name(resources[count - 1]),
            resources[count - 1],
        )
    }
}

/// The iteration block of a system body: batched when `parallel`, one
/// entity at a time otherwise.
pub open spec fn iteration_block(parallel: bool) -> Seq<char> {
    if parallel {
        "    query.par_for_each_mut(32, |components| {\n"@
            + "        // Parallel processing logic\n"@ + "    });\n"@
    } else {
        "    for components in query.iter_mut() {\n"@
            + "        // Sequential processing logic\n"@ + "    }\n"@
    }
}

/// A system as a function: signature, parameters and body.
pub open spec fn system_text(system: SystemModel) -> Seq<char> {
    "fn "@ + system.name + "(\n"@ + query_parameter(system.query_components)
        + resource_parameters(system.resources, system.resources.len()) + ") {\n"@
        + "    // AI-generated system logic\n"@ + iteration_block(system.parallel) + "}"@
}

/// Renders a struct declaration from its parts.
fn render_struct(name: &str, fields: &Vec<(String, String)>, traits: &Vec<String>) -> (code:
    String)
    ensures
        code@ == struct_text(
            StructModel { name: name@, fields: fields.deep_view(), traits: traits.deep_view() },
        ),
{
    let mut code = String::new();
    if traits.len() > 0 {
        code.append("#[derive(");
        let list = join(traits, ", ");
        code.append(list.as_str());
        code.append(")]\n");
    }
    code.append("pub struct ");
    code.append(name);
    code.append(" {\n");
    let ghost head = code@;
    let mut i: usize = 0;
    while i < fields.len()
        invariant
            i <= fields.len(),
            code@ == head + field_lines(fields.deep_view(), i as nat),
        decreases fields.len() - i,
    {
        code.append("    pub ");
        code.append(fields[i].0.as_str());
        code.append(": ");
        code.append(fields[i].1.as_str());
        code.append(",\n");
        i = i + 1;
    }
    code.append("}");
    code
}

/// Whether a struct of this name and with these fields can be declared.
fn can_be_declared(name: &str, fields: &Vec<(String, String)>) -> (ok: bool)
    ensures
        ok == (valid_identifier(name@) && distinct_field_names(fields.deep_view())),
{
    if !is_valid_identifier(name) {
        return false;
    }
    let mut j: usize = 0;
    while j < fields.len()
        invariant
            j <= fields.len(),
            forall|a: int, b: int|
                0 <= a < b < j ==> (#[trigger] fields.deep_view()[a]).0 != (
                #[trigger] fields.deep_view()[b]).0,
        decreases fields.len() - j,
    {
        let mut i: usize = 0;
        while i < j
            invariant
                i <= j < fields.len(),
                forall|a: int|
                    0 <= a < i ==> (#[trigger] fields.deep_view()[a]).0 != fields.deep_view()[j as int].0,
            decreases j - i,
        {
            if same_text(fields[i].0.as_str(), fields[j].0.as_str()) {
                assert(fields.deep_view()[i as int].0 == fields.deep_view()[j as int].0);
                return false;
            }
            i = i + 1;
        }
        j = j + 1;
    }
    true
}

impl ComponentDefinition {
    /// Whether the component can be declared: its name is an identifier and
    /// no two of its fields share a name.
    pub fn is_well_formed(&self) -> (ok: bool)
        ensures
            ok == well_formed_struct(self@),
    {
        can_be_declared(self.name.as_str(), &self.fields)
    }

    /// The component's declaration as source text.
    pub fn generate_rust_code(&self) -> (code: String)
        ensures
            code@ == struct_text(self@),
    {
        render_struct(self.name.as_str(), &self.fields, &self.traits)
    }
}

impl ResourceDefinition {
    /// Whether the resource can be declared: its name is an identifier and
    /// no two of its fields share a name.
    pub fn is_well_formed(&self) -> (ok: bool)
        ensures
            ok == well_formed_struct(self@),
    {
        can_be_declared(self.name.as_str(), &self.fields)
    }

    /// The resource's declaration as source text.
    pub fn generate_rust_code(&self) -> (code: String)
        ensures
            code@ == struct_text(self@),
    {
        render_struct(self.name.as_str(), &self.fields, &self.traits)
    }
}

impl ComponentQuery {
    /// The entry as it stands inside `Query<(..)>`: `&Name` or `&mut Name`.
    pub fn render(&self) -> (code: String)
        ensures
            code@ == query_text(self@),
    {
        let mut code = String::new();
        match self.access {
            QueryAccess::Read => {
                code.append("&");
            },
            QueryAccess::ReadWrite => {
                code.append("&mut ");
            },
        }
        code.append(self.component.as_str());
        code
    }
}

/// Renders one parameter line of a system signature.
pub fn render_parameter(name: &str, ty: &str) -> (line: String)
    ensures
        line@ == parameter_line(name@, ty@),
{
    let mut line = String::new();
    line.append("    ");
    line.append(name);
    line.append(": ");
    line.append(ty);
    line.append(",\n");
    line
}

impl SystemDefinition {
    /// The system as a function: a query parameter built from the queried
    /// components, one parameter per resource, and a body that iterates in
    /// parallel or sequentially.
    pub fn generate_rust_code(&self) -> (code: String)
        ensures
            code@ == system_text(self@),
    {
        let mut code = String::new();
        code.append("fn ");
        code.append(self.name.as_str());
        code.append("(\n");
        if self.query_components.len() > 0 {
            let mut entries: Vec<String> = Vec::new();
            let mut q: usize = 0;
            while q < self.query_components.len()
                invariant
                    q <= self.query_components.len(),
                    entries.len() == q,
                    forall|k: int|
                        0 <= k < q ==> entries.deep_view()[k] == query_text(
                            #[trigger] self.query_components.deep_view()[k],
                        ),
                decreases self.query_components.len() - q,
            {
                entries.push(self.query_components[q].render());
                q = q + 1;
            }
            assert(entries.deep_view() =~= query_texts(self.query_components.deep_view()));
            code.append("    mut query: Query<(");
            let list = join(&entries, ", ");
            code.append(list.as_str());
            code.append(")>,\n");
        }
        let ghost head = code@;
        let mut i: usize = 0;
        while i < self.resources.len()
            invariant
                i <= self.resources.len(),
                code@ == head + resource_parameters(self.resources.deep_view(), i as nat),
            decreases self.resources.len() - i,
        {
            let resource = self.resources[i].as_str();
            let name = lowercase(leading_part(resource, '<'));
            let line = render_parameter(name.as_str(), resource);
            code.append(line.as_str());
            i = i + 1;
        }
        code.append(") {\n");
        code.append("    // AI-generated system logic\n");
        if self.parallel {
            code.append("    query.par_for_each_mut(32, |components| {\n");
            code.append("        // Parallel processing logic\n");
            code.append("    });\n");
        } else {
            code.append("    for components in query.iter_mut() {\n");
            code.append("        // Sequential processing logic\n");
            code.append("    }\n");
        }
        code.append("}");
        code
    }
}

} // verus!
