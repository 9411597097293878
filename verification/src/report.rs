//! Structured reports: nested sections of named flags and texts.

use vstd::prelude::*;

verus! {

/// What a report holds under a key: a flag, a text, or a nested section
/// whose entries keep the order they were written in.
#[derive(Debug)]
pub enum ReportValue {
    Flag(bool),
    Text(String),
    Section(Vec<ReportEntry>),
}

/// A key of a section and what stands under it.
#[derive(Debug)]
pub struct ReportEntry {
    pub key: String,
    pub value: ReportValue,
}

/// The view of a [`ReportValue`].
pub ghost enum ValueModel {
    Flag(bool),
    Text(Seq<char>),
    Section(Seq<(Seq<char>, ValueModel)>),
}

/// The view of a value: sections are viewed entry by entry.
pub open spec fn value_view(value: ReportValue) -> ValueModel
    decreases value, 0nat,
{
    match value {
        ReportValue::Flag(on) => ValueModel::Flag(on),
        ReportValue::Text(text) => ValueModel::Text(text@),
        ReportValue::Section(entries) => ValueModel::Section(
            entry_views(entries@, entries@.len()),
        ),
    }
}

/// The views of the first `count` of `entries`, in order.
pub open spec fn entry_views(entries: Seq<ReportEntry>, count: nat) -> Seq<(Seq<char>, ValueModel)>
    decreases entries, count,
{
    if count == 0 || count > entries.len() {
        Seq::empty()
    } else {
        entry_views(entries, (count - 1) as nat).push(
            (entries[count - 1].key@, value_view(entries[count - 1].value)),
        )
    }
}

impl View for ReportValue {
    type V = ValueModel;

    open spec fn view(&self) -> ValueModel {
        value_view(*self)
    }
}

impl View for ReportEntry {
    type V = (Seq<char>, ValueModel);

    open spec fn view(&self) -> (Seq<char>, ValueModel) {
        (self.key@, self.value@)
    }
}

/// The views of all of `entries`, in order.
pub open spec fn section_view(entries: Seq<ReportEntry>) -> Seq<(Seq<char>, ValueModel)> {
    Seq::new(entries.len(), |i: int| entries[i]@)
}

/// Viewing a section entry by entry gives the view of each entry in turn.
pub proof fn lemma_entry_views(entries: Seq<ReportEntry>, count: nat)
    requires
        count <= entries.len(),
    ensures
        entry_views(entries, count) == section_view(entries).subrange(0, count as int),
    decreases count,
{
    if count > 0 {
        lemma_entry_views(entries, (count - 1) as nat);
        assert(entry_views(entries, count) =~= section_view(entries).subrange(0, count as int));
    } else {
        assert(entry_views(entries, count) =~= section_view(entries).subrange(0, count as int));
    }
}

/// A flag under `key`.
pub open spec fn flag_entry(key: Seq<char>, on: bool) -> (Seq<char>, ValueModel) {
    (key, ValueModel::Flag(on))
}

/// A text under `key`.
pub open spec fn text_entry(key: Seq<char>, text: Seq<char>) -> (Seq<char>, ValueModel) {
    (key, ValueModel::Text(text))
}

/// A nested section under `key`.
pub open spec fn section_entry(key: Seq<char>, entries: Seq<(Seq<char>, ValueModel)>) -> (
    Seq<char>,
    ValueModel,
) {
    (key, ValueModel::Section(entries))
}

impl ReportValue {
    /// A section that holds `entries` in order.
    pub fn section(entries: Vec<ReportEntry>) -> (value: ReportValue)
        ensures
            value@ == ValueModel::Section(section_view(entries@)),
    {
        let value = ReportValue::Section(entries);
        proof {
            lemma_entry_views(entries@, entries@.len());
            assert(section_view(entries@).subrange(0, entries@.len() as int) =~= section_view(
                entries@,
            ));
        }
        value
    }
}

impl ReportEntry {
    /// The entry `key: on`.
    pub fn flag(key: &str, on: bool) -> (entry: ReportEntry)
        ensures
            entry@ == flag_entry(key@, on),
    {
        ReportEntry { key: key.to_string(), value: ReportValue::Flag(on) }
    }

    /// The entry `key: text`.
    pub fn text(key: &str, text: &str) -> (entry: ReportEntry)
        ensures
            entry@ == text_entry(key@, text@),
    {
        ReportEntry { key: key.to_string(), value: ReportValue::Text(text.to_string()) }
    }

    /// The entry `key: { entries }`.
    pub fn section(key: &str, entries: Vec<ReportEntry>) -> (entry: ReportEntry)
        ensures
            entry@ == section_entry(key@, section_view(entries@)),
    {
        ReportEntry { key: key.to_string(), value: ReportValue::section(entries) }
    }
}

} // verus!
