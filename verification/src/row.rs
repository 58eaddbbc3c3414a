//! What travels between osquery and an extension: rows of named texts.

use crate::text_map::TextMap;
use vstd::prelude::*;
use vstd::string::*;

verus! {

broadcast use vstd::string::group_string_axioms;

/// A request to a plugin: named texts.
pub type PluginRequest = TextMap<String>;

/// A plugin's answer: rows of named texts.
pub type PluginResponse = Vec<TextMap<String>>;

/// The number by which osquery knows a registered extension.
pub type ExtensionUuid = i64;

/// The plugins of an extension: by registry, then by name, with their routes.
pub type ExtensionRegistry = TextMap<TextMap<PluginResponse>>;

/// A row in terms of its characters.
pub type RowView = Map<Seq<char>, Seq<char>>;

/// What `row` holds at `key`, where it holds anything.
pub open spec fn at<V>(row: Map<Seq<char>, V>, key: Seq<char>) -> Option<V> {
    if row.contains_key(key) {
        Some(row[key])
    } else {
        None
    }
}

/// An insertion, seen through the views of the values.
pub proof fn lemma_deep_insert<V: DeepView>(m: Map<Seq<char>, V>, key: Seq<char>, value: V)
    ensures
        m.insert(key, value).map_values(|v: V| v.deep_view()) == m.map_values(
            |v: V| v.deep_view(),
        ).insert(key, value.deep_view()),
{
}

/// The text of `row` at `key`, where there is one.
pub fn field<'a>(row: &'a TextMap<String>, key: &str) -> (r: Option<&'a str>)
    ensures
        match r {
            Some(s) => at(row.deep_view(), key@) == Some(s@),
            None => at(row.deep_view(), key@) is None,
        },
{
    match row.get(key) {
        Some(s) => Some(s.as_str()),
        None => None,
    }
}

/// An empty row.
pub fn empty_row() -> (r: TextMap<String>)
    ensures
        r.deep_view() == Map::<Seq<char>, Seq<char>>::empty(),
{
    TextMap::new()
}

/// Puts `value` into `row` at `key`.
pub fn set_field(row: &mut TextMap<String>, key: &str, value: String)
    ensures
        final(row).deep_view() == old(row).deep_view().insert(key@, value@),
{
    proof {
        lemma_deep_insert(row@, key@, value);
    }
    row.insert(key.to_string(), value);
}

/// A row is looked up by its own entries: what was put at a key is there, what
/// was not is not, and other keys keep what they had.
pub proof fn rows_give_what_they_hold<V>(
    row: Map<Seq<char>, V>,
    key: Seq<char>,
    value: V,
    other: Seq<char>,
)
    ensures
        at(row, key) is Some <==> row.contains_key(key),
        row.contains_key(key) ==> at(row, key) == Some(row[key]),
        at(row.insert(key, value), key) == Some(value),
        other != key ==> at(row.insert(key, value), other) == at(row, other),
        at(Map::<Seq<char>, V>::empty(), key) is None,
{
}

} // verus!
