//! Insertion-ordered sets keyed by name: a definition whose name is already
//! present is not inserted again, so the first one stays.

use crate::model::{
    ComponentDefinition, ResourceDefinition, StructModel, SystemDefinition, SystemModel,
};
use crate::text::same_text;
use vstd::prelude::*;

verus! {

/// A model that is known by a name.
pub trait Named {
    /// The name the model is known by.
    spec fn label(self) -> Seq<char>;
}

impl Named for StructModel {
    open spec fn label(self) -> Seq<char> {
        self.name
    }
}

impl Named for SystemModel {
    open spec fn label(self) -> Seq<char> {
        self.name
    }
}

/// A definition whose view is a named model.
pub trait Labelled: DeepView where <Self as DeepView>::V: Named {
    /// The name the definition is known by.
    fn label(&self) -> (l: &str)
        ensures
            l@ == self.deep_view().label(),
    ;
}

impl Labelled for ComponentDefinition {
    fn label(&self) -> (l: &str) {
        self.name.as_str()
    }
}

impl Labelled for ResourceDefinition {
    fn label(&self) -> (l: &str) {
        self.name.as_str()
    }
}

impl Labelled for SystemDefinition {
    fn label(&self) -> (l: &str) {
        self.name.as_str()
    }
}

/// Whether one of `defs` is called `name`.
pub open spec fn has_name<M: Named>(defs: Seq<M>, name: Seq<char>) -> bool {
    exists|i: int| 0 <= i < defs.len() && #[trigger] defs[i].label() == name
}

/// No two of `defs` share a name.
pub open spec fn distinct_names<M: Named>(defs: Seq<M>) -> bool {
    forall|i: int, j: int|
        0 <= i < j < defs.len() ==> #[trigger] defs[i].label() != #[trigger] defs[j].label()
}

/// `defs` after `def` was offered: unchanged when the name is taken,
/// extended at the end otherwise.
pub open spec fn inserted<M: Named>(defs: Seq<M>, def: M) -> Seq<M> {
    if has_name(defs, def.label()) {
        defs
    } else {
        defs.push(def)
    }
}

/// `defs` after the first `count` of `more` were offered in order.
pub open spec fn inserted_all<M: Named>(defs: Seq<M>, more: Seq<M>, count: nat) -> Seq<M>
    decreases count,
{
    if count == 0 {
        defs
    } else {
        inserted(inserted_all(defs, more, (count - 1) as nat), more[count - 1])
    }
}

/// Offering one definition keeps names distinct and keeps every name that
/// is present.
pub proof fn lemma_inserted_keeps_order<M: Named>(defs: Seq<M>, def: M)
    ensures
        distinct_names(defs) ==> distinct_names(inserted(defs, def)),
        has_name(inserted(defs, def), def.label()),
        forall|name: Seq<char>| has_name(defs, name) ==> has_name(inserted(defs, def), name),
        forall|i: int| 0 <= i < defs.len() ==> inserted(defs, def)[i] == defs[i],
        forall|i: int|
            0 <= i < inserted(defs, def).len() ==> i < defs.len() || inserted(defs, def)[i] == def,
{
    let after = inserted(defs, def);
    if !has_name(defs, def.label()) {
        assert(after[defs.len() as int].label() == def.label());
    }
    assert forall|name: Seq<char>| has_name(defs, name) implies has_name(after, name) by {
        let i = choose|i: int| 0 <= i < defs.len() && #[trigger] defs[i].label() == name;
        assert(after[i].label() == name);
    }
}

/// Offering a definition never removes or changes what is already there.
pub proof fn lemma_inserted_all_extends<M: Named>(defs: Seq<M>, more: Seq<M>, count: nat)
    ensures
        defs.len() <= inserted_all(defs, more, count).len(),
        forall|i: int| 0 <= i < defs.len() ==> inserted_all(defs, more, count)[i] == defs[i],
    decreases count,
{
    if count > 0 {
        lemma_inserted_all_extends(defs, more, (count - 1) as nat);
    }
}

/// Every definition that was offered is present by name afterwards.
pub proof fn lemma_inserted_all_has_offered<M: Named>(
    defs: Seq<M>,
    more: Seq<M>,
    count: nat,
    i: int,
)
    requires
        0 <= i < count,
    ensures
        has_name(inserted_all(defs, more, count), more[i].label()),
    decreases count,
{
    let before = inserted_all(defs, more, (count - 1) as nat);
    let after = inserted_all(defs, more, count);
    if i == count - 1 {
        if !has_name(before, more[i].label()) {
            assert(after[before.len() as int].label() == more[i].label());
        }
    } else {
        lemma_inserted_all_has_offered(defs, more, (count - 1) as nat, i);
        let k = choose|k: int| 0 <= k < before.len() && #[trigger] before[k].label() == more[i].label();
        assert(after[k].label() == more[i].label());
    }
}

/// Whatever is present afterwards was there before or was offered.
pub proof fn lemma_inserted_all_origin<M: Named>(defs: Seq<M>, more: Seq<M>, count: nat, k: int)
    requires
        0 <= k < inserted_all(defs, more, count).len(),
    ensures
        k < defs.len() || exists|i: int| 0 <= i < count && more[i] == inserted_all(defs, more, count)[k],
    decreases count,
{
    lemma_inserted_all_extends(defs, more, count);
    if count > 0 {
        let before = inserted_all(defs, more, (count - 1) as nat);
        if k < before.len() {
            lemma_inserted_all_origin(defs, more, (count - 1) as nat, k);
            if k >= defs.len() {
                let i = choose|i: int| 0 <= i < count - 1 && more[i] == before[k];
                assert(more[i] == inserted_all(defs, more, count)[k]);
            }
        } else {
            assert(more[count - 1] == inserted_all(defs, more, count)[k]);
        }
    }
}

/// Offering definitions whose names are all present changes nothing: the
/// first definition of a name stays.
pub proof fn lemma_inserted_all_absorbs<M: Named>(defs: Seq<M>, more: Seq<M>, count: nat)
    requires
        forall|i: int| 0 <= i < count ==> has_name(defs, #[trigger] more[i].label()),
    ensures
        inserted_all(defs, more, count) == defs,
    decreases count,
{
    if count > 0 {
        lemma_inserted_all_absorbs(defs, more, (count - 1) as nat);
    }
}

/// Names that are distinct stay distinct: an offered definition whose name
/// is taken is not inserted, so no name ever occurs twice.
pub proof fn lemma_inserted_all_distinct<M: Named>(defs: Seq<M>, more: Seq<M>, count: nat)
    requires
        distinct_names(defs),
    ensures
        distinct_names(inserted_all(defs, more, count)),
    decreases count,
{
    if count > 0 {
        lemma_inserted_all_distinct(defs, more, (count - 1) as nat);
    }
}

/// Whether one of `defs` is called `name`.
pub fn contains_name<T: Labelled>(defs: &Vec<T>, name: &str) -> (found: bool) where
    <T as DeepView>::V: Named,

    ensures
        found == has_name(defs.deep_view(), name@),
{
    let mut i: usize = 0;
    while i < defs.len()
        invariant
            i <= defs.len(),
            forall|k: int| 0 <= k < i ==> (#[trigger] defs.deep_view()[k]).label() != name@,
        decreases defs.len() - i,
    {
        if same_text(defs[i].label(), name) {
            assert(defs.deep_view()[i as int].label() == name@);
            return true;
        }
        i = i + 1;
    }
    false
}

/// Offers `def` to `defs`: it is appended unless its name is already there.
pub fn insert_unique<T: Labelled>(defs: &mut Vec<T>, def: T) where <T as DeepView>::V: Named
    ensures
        final(defs).deep_view() == inserted(old(defs).deep_view(), def.deep_view()),
{
    if !contains_name(defs, def.label()) {
        defs.push(def);
        assert(defs.deep_view() =~= old(defs).deep_view().push(def.deep_view()));
    }
}

/// Offers each of `more` to `defs`, in order.
pub fn insert_all<T: Labelled>(defs: &mut Vec<T>, more: Vec<T>) where <T as DeepView>::V: Named
    ensures
        final(defs).deep_view() == inserted_all(
            old(defs).deep_view(),
            more.deep_view(),
            more.len() as nat,
        ),
{
    let ghost offered = more.deep_view();
    for def in it: more
        invariant
            it.seq() == more@,
            offered == more.deep_view(),
            defs.deep_view() == inserted_all(old(defs).deep_view(), offered, it.index() as nat),
    {
        assert(def.deep_view() == offered[it.index() as int]);
        insert_unique(defs, def);
    }
}

} // verus!
