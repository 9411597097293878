//! What the emitted source file is known to contain.

use crate::model::{
    iteration_block, query_parameter, resource_parameters, struct_text, system_text, StructModel,
    SystemModel,
};
use crate::project::{
    entry_point_text, preamble_text, project_text, setup_text, struct_blocks, system_blocks,
    ProjectModel,
};
use vstd::prelude::*;
use vstd::string::*;

verus! {

/// The `len` characters of `whole` that start at `at`.
pub open spec fn window(whole: Seq<char>, at: int, len: nat) -> Seq<char> {
    whole.subrange(at, at + len)
}

/// Whether `part` stands somewhere in `whole`, character for character.
pub open spec fn occurs_in(part: Seq<char>, whole: Seq<char>) -> bool {
    exists|at: int|
        0 <= at && at + part.len() <= whole.len() && #[trigger] window(whole, at, part.len())
            == part
}

/// What stands between two texts occurs in the whole.
pub proof fn lemma_occurs_between(before: Seq<char>, part: Seq<char>, after: Seq<char>)
    ensures
        occurs_in(part, before + part + after),
{
    let whole = before + part + after;
    assert(window(whole, before.len() as int, part.len()) =~= part);
}

/// What occurs in a text occurs in every text around it.
pub proof fn lemma_occurs_within(
    part: Seq<char>,
    before: Seq<char>,
    inner: Seq<char>,
    after: Seq<char>,
)
    requires
        occurs_in(part, inner),
    ensures
        occurs_in(part, before + inner + after),
{
    let at = choose|at: int|
        0 <= at && at + part.len() <= inner.len() && #[trigger] window(inner, at, part.len())
            == part;
    let whole = before + inner + after;
    assert(window(whole, before.len() + at, part.len()) =~= window(inner, at, part.len()));
}

/// Each of the first `count` structs is declared among their blocks.
pub proof fn lemma_blocks_declare_structs(defs: Seq<StructModel>, count: nat, i: int)
    requires
        0 <= i < count,
    ensures
        occurs_in(struct_text(defs[i]), struct_blocks(defs, count)),
    decreases count,
{
    let earlier = struct_blocks(defs, (count - 1) as nat);
    let last = struct_text(defs[count - 1]);
    if i == count - 1 {
        lemma_occurs_between(earlier, last, "\n\n"@);
    } else {
        lemma_blocks_declare_structs(defs, (count - 1) as nat, i);
        lemma_occurs_within(struct_text(defs[i]), Seq::empty(), earlier, last + "\n\n"@);
        assert(Seq::<char>::empty() + earlier + (last + "\n\n"@) =~= struct_blocks(defs, count));
    }
}

/// Each of the first `count` systems is written out among their blocks.
pub proof fn lemma_blocks_declare_systems(systems: Seq<SystemModel>, count: nat, i: int)
    requires
        0 <= i < count,
    ensures
        occurs_in(system_text(systems[i]), system_blocks(systems, count)),
    decreases count,
{
    let earlier = system_blocks(systems, (count - 1) as nat);
    let last = system_text(systems[count - 1]);
    if i == count - 1 {
        lemma_occurs_between(earlier, last, "\n\n"@);
    } else {
        lemma_blocks_declare_systems(systems, (count - 1) as nat, i);
        lemma_occurs_within(system_text(systems[i]), Seq::empty(), earlier, last + "\n\n"@);
        assert(Seq::<char>::empty() + earlier + (last + "\n\n"@) =~= system_blocks(
            systems,
            count,
        ));
    }
}

/// The emitted file declares every component of the project.
pub proof fn lemma_emitted_text_declares_components(project: ProjectModel, i: int)
    requires
        0 <= i < project.components.len(),
    ensures
        occurs_in(struct_text(project.components[i]), project_text(project)),
{
    let blocks = struct_blocks(project.components, project.components.len());
    let before = preamble_text(project.name);
    let after = struct_blocks(project.resources, project.resources.len()) + system_blocks(
        project.systems,
        project.systems.len(),
    ) + entry_point_text(project.plugins, project.systems) + setup_text();
    lemma_blocks_declare_structs(project.components, project.components.len(), i);
    lemma_occurs_within(struct_text(project.components[i]), before, blocks, after);
    assert(before + blocks + after =~= project_text(project));
}

/// The emitted file declares every resource of the project.
pub proof fn lemma_emitted_text_declares_resources(project: ProjectModel, i: int)
    requires
        0 <= i < project.resources.len(),
    ensures
        occurs_in(struct_text(project.resources[i]), project_text(project)),
{
    let blocks = struct_blocks(project.resources, project.resources.len());
    let before = preamble_text(project.name) + struct_blocks(
        project.components,
        project.components.len(),
    );
    let after = system_blocks(project.systems, project.systems.len()) + entry_point_text(
        project.plugins,
        project.systems,
    ) + setup_text();
    lemma_blocks_declare_structs(project.resources, project.resources.len(), i);
    lemma_occurs_within(struct_text(project.resources[i]), before, blocks, after);
    assert(before + blocks + after =~= project_text(project));
}

/// The emitted file writes out every system of the project, and the body of
/// each iterates in parallel exactly when the system is marked parallel.
pub proof fn lemma_emitted_text_declares_systems(project: ProjectModel, i: int)
    requires
        0 <= i < project.systems.len(),
    ensures
        occurs_in(system_text(project.systems[i]), project_text(project)),
        occurs_in(iteration_block(project.systems[i].parallel), system_text(project.systems[i])),
{
    let system = project.systems[i];
    let blocks = system_blocks(project.systems, project.systems.len());
    let before = preamble_text(project.name) + struct_blocks(
        project.components,
        project.components.len(),
    ) + struct_blocks(project.resources, project.resources.len());
    let after = entry_point_text(project.plugins, project.systems) + setup_text();
    lemma_blocks_declare_systems(project.systems, project.systems.len(), i);
    lemma_occurs_within(system_text(system), before, blocks, after);
    assert(before + blocks + after =~= project_text(project));

    let head = system_text(system).subrange(
        0,
        system_text(system).len() - iteration_block(system.parallel).len() - "}"@.len(),
    );
    lemma_occurs_between(head, iteration_block(system.parallel), "}"@);
    assert(head + iteration_block(system.parallel) + "}"@ =~= system_text(system));
}

/// The signature of a system: its name and its parameters, up to the brace
/// that opens the body.
pub open spec fn system_signature(system: SystemModel) -> Seq<char> {
    "fn "@ + system.name + "(\n"@ + query_parameter(system.query_components)
        + resource_parameters(system.resources, system.resources.len()) + ") {\n"@
}

/// The body of a system; it depends on the parallel flag alone.
pub open spec fn system_body(parallel: bool) -> Seq<char> {
    "    // AI-generated system logic\n"@ + iteration_block(parallel) + "}"@
}

/// Whether `c` stands nowhere in `text`.
pub open spec fn lacks(text: Seq<char>, c: char) -> bool {
    forall|i: int| 0 <= i < text.len() ==> text[i] != c
}

/// A system is its signature followed by the body for its flag.
pub proof fn lemma_system_text_splits(system: SystemModel)
    ensures
        system_text(system) == system_signature(system) + system_body(system.parallel),
{
    assert(system_text(system) =~= system_signature(system) + system_body(system.parallel));
}

/// What occurs in a part of a text occurs in the text.
pub proof fn lemma_occurs_transitively(part: Seq<char>, middle: Seq<char>, whole: Seq<char>)
    requires
        occurs_in(part, middle),
        occurs_in(middle, whole),
    ensures
        occurs_in(part, whole),
{
    let inner = choose|at: int|
        0 <= at && at + part.len() <= middle.len() && #[trigger] window(middle, at, part.len())
            == part;
    let outer = choose|at: int|
        0 <= at && at + middle.len() <= whole.len() && #[trigger] window(
            whole,
            at,
            middle.len(),
        ) == middle;
    assert(window(whole, outer + inner, part.len()) =~= window(
        window(whole, outer, middle.len()),
        inner,
        part.len(),
    ));
}

/// A word that holds a character which a text lacks does not occur in it.
pub proof fn lemma_lacking_excludes(word: Seq<char>, text: Seq<char>, k: int)
    requires
        0 <= k < word.len(),
        lacks(text, word[k]),
    ensures
        !occurs_in(word, text),
{
    if occurs_in(word, text) {
        let at = choose|at: int|
            0 <= at && at + word.len() <= text.len() && #[trigger] window(text, at, word.len())
                == word;
        assert(window(text, at, word.len())[k] == text[at + k]);
    }
}

/// A word without a line end that occurs neither in a text that ends a line
/// nor in what follows it does not occur in the two together.
pub proof fn lemma_absent_across_line_end(word: Seq<char>, head: Seq<char>, tail: Seq<char>)
    requires
        !occurs_in(word, head),
        !occurs_in(word, tail),
        head.len() > 0,
        head.last() == '\n',
        lacks(word, '\n'),
    ensures
        !occurs_in(word, head + tail),
{
    let whole = head + tail;
    if occurs_in(word, whole) {
        let at = choose|at: int|
            0 <= at && at + word.len() <= whole.len() && #[trigger] window(whole, at, word.len())
                == word;
        if at + word.len() <= head.len() {
            assert(window(head, at, word.len()) =~= window(whole, at, word.len()));
        } else if at >= head.len() {
            assert(window(tail, at - head.len(), word.len()) =~= window(whole, at, word.len()));
        } else {
            let k = head.len() - 1 - at;
            assert(window(whole, at, word.len())[k] == whole[head.len() - 1]);
            assert(word[k] == '\n');
        }
    }
}

/// The two bodies exclude each other: the sequential body holds the plain
/// loop and nowhere the words of the batched call, the parallel body holds
/// the batched call and nowhere the words of the plain loop.
pub proof fn lemma_bodies_exclude_each_other()
    ensures
        occurs_in("for components in query.iter_mut() {"@, system_body(false)),
        !occurs_in("par_for_each_mut"@, system_body(false)),
        occurs_in("query.par_for_each_mut(32, |components| {"@, system_body(true)),
        !occurs_in("query.iter_mut()"@, system_body(true)),
{
    let comment = "    // AI-generated system logic\n"@;
    let close = "}"@;
    reveal_strlit("    // AI-generated system logic\n");
    reveal_strlit("}");

    let plain = "for components in query.iter_mut() {"@;
    let batched_word = "par_for_each_mut"@;
    let loop_line = "    for components in query.iter_mut() {\n"@;
    let loop_note = "        // Sequential processing logic\n"@;
    let loop_end = "    }\n"@;
    reveal_strlit("for components in query.iter_mut() {");
    reveal_strlit("par_for_each_mut");
    reveal_strlit("    for components in query.iter_mut() {\n");
    reveal_strlit("        // Sequential processing logic\n");
    reveal_strlit("    }\n");
    assert(batched_word[11] == 'h');
    assert(lacks(batched_word, '\n'));
    assert(lacks(comment, 'h'));
    assert(lacks(loop_line, 'h'));
    assert(lacks(loop_note, 'h'));
    assert(lacks(loop_end, 'h'));
    assert(lacks(close, 'h'));
    lemma_lacking_excludes(batched_word, comment, 11);
    lemma_lacking_excludes(batched_word, loop_line, 11);
    lemma_lacking_excludes(batched_word, loop_note, 11);
    lemma_lacking_excludes(batched_word, loop_end, 11);
    lemma_lacking_excludes(batched_word, close, 11);
    lemma_absent_across_line_end(batched_word, comment, loop_line);
    lemma_absent_across_line_end(batched_word, comment + loop_line, loop_note);
    lemma_absent_across_line_end(batched_word, comment + loop_line + loop_note, loop_end);
    lemma_absent_across_line_end(batched_word, comment + loop_line + loop_note + loop_end, close);
    assert(system_body(false) =~= comment + loop_line + loop_note + loop_end + close);
    assert(window(loop_line, 4, plain.len()) =~= plain);
    lemma_occurs_within(plain, comment, loop_line, loop_note + loop_end + close);
    assert(comment + loop_line + (loop_note + loop_end + close) =~= system_body(false));

    let loop_word = "query.iter_mut()"@;
    let batched = "query.par_for_each_mut(32, |components| {"@;
    let call_line = "    query.par_for_each_mut(32, |components| {\n"@;
    let call_note = "        // Parallel processing logic\n"@;
    let call_end = "    });\n"@;
    reveal_strlit("query.iter_mut()");
    reveal_strlit("query.par_for_each_mut(32, |components| {");
    reveal_strlit("    query.par_for_each_mut(32, |components| {\n");
    reveal_strlit("        // Parallel processing logic\n");
    reveal_strlit("    });\n");
    assert(loop_word[5] == '.');
    assert(loop_word[6] == 'i');
    assert(lacks(loop_word, '\n'));
    assert(lacks(comment, '.'));
    assert(lacks(call_line, 'i'));
    assert(lacks(call_note, '.'));
    assert(lacks(call_end, '.'));
    assert(lacks(close, '.'));
    lemma_lacking_excludes(loop_word, comment, 5);
    lemma_lacking_excludes(loop_word, call_line, 6);
    lemma_lacking_excludes(loop_word, call_note, 5);
    lemma_lacking_excludes(loop_word, call_end, 5);
    lemma_lacking_excludes(loop_word, close, 5);
    lemma_absent_across_line_end(loop_word, comment, call_line);
    lemma_absent_across_line_end(loop_word, comment + call_line, call_note);
    lemma_absent_across_line_end(loop_word, comment + call_line + call_note, call_end);
    lemma_absent_across_line_end(loop_word, comment + call_line + call_note + call_end, close);
    assert(system_body(true) =~= comment + call_line + call_note + call_end + close);
    assert(window(call_line, 4, batched.len()) =~= batched);
    lemma_occurs_within(batched, comment, call_line, call_note + call_end + close);
    assert(comment + call_line + (call_note + call_end + close) =~= system_body(true));
}

/// The text of a system holds the iteration block for its flag and not the
/// other one: a sequential system holds the plain loop and nowhere the
/// words of the batched call, a parallel system holds the batched call and
/// nowhere the words of the plain loop. This is stated of systems whose
/// signature, that is their own name and parameters, does not hold the
/// excluded words.
pub proof fn lemma_system_text_holds_one_block(system: SystemModel)
    requires
        !occurs_in("par_for_each_mut"@, system_signature(system)),
        !occurs_in("query.iter_mut()"@, system_signature(system)),
    ensures
        !system.parallel ==> occurs_in(
            "for components in query.iter_mut() {"@,
            system_text(system),
        ) && !occurs_in("par_for_each_mut"@, system_text(system)),
        system.parallel ==> occurs_in(
            "query.par_for_each_mut(32, |components| {"@,
            system_text(system),
        ) && !occurs_in("query.iter_mut()"@, system_text(system)),
{
    let signature = system_signature(system);
    let body = system_body(system.parallel);
    lemma_system_text_splits(system);
    lemma_bodies_exclude_each_other();
    reveal_strlit(") {\n");
    reveal_strlit("par_for_each_mut");
    reveal_strlit("query.iter_mut()");
    assert(signature.last() == ") {\n"@[3]);
    assert(lacks("par_for_each_mut"@, '\n'));
    assert(lacks("query.iter_mut()"@, '\n'));
    if system.parallel {
        lemma_absent_across_line_end("query.iter_mut()"@, signature, body);
        lemma_occurs_within(
            "query.par_for_each_mut(32, |components| {"@,
            signature,
            body,
            Seq::empty(),
        );
    } else {
        lemma_absent_across_line_end("par_for_each_mut"@, signature, body);
        lemma_occurs_within(
            "for components in query.iter_mut() {"@,
            signature,
            body,
            Seq::empty(),
        );
    }
    assert(signature + body + Seq::<char>::empty() =~= signature + body);
}

} // verus!
