//! The insertion-ordered set of strings that holds glob patterns and `extends`
//! specifiers, and the few operations the configuration needs from it.

use crate::merge::or_default;
use biome_deserialize::StringSet;
use vstd::prelude::*;

verus! {

/// `biome_deserialize::StringSet`, an `IndexSet<String>` behind a new type.
/// Its fields are hidden from the verifier.
#[verifier::external_type_specification]
#[verifier::external_body]
pub struct ExStringSet(biome_deserialize::StringSet);

/// The strings a set holds, in the order in which they were first put in.
pub uninterp spec fn string_set_items(set: StringSet) -> Seq<Seq<char>>;

/// The views of a sequence of strings.
pub open spec fn views(strings: Seq<String>) -> Seq<Seq<char>> {
    strings.map_values(|s: String| s@)
}

/// Calls `IndexSet::iter` through `StringSet`'s `Deref` and copies each item.
/// Claims that the items come out in insertion order and that no string
/// occurs twice among them.
#[verifier::external_body]
pub(crate) fn string_set_to_vec(set: &StringSet) -> (items: Vec<String>)
    ensures
        views(items@) == string_set_items(*set),
        views(items@).no_duplicates(),
{
    set.iter().cloned().collect()
}

/// Calls `StringSet::default`, which makes an empty `IndexSet`.
#[verifier::external_body]
pub(crate) fn string_set_empty() -> (set: StringSet)
    ensures
        string_set_items(set) == Seq::<Seq<char>>::empty(),
{
    StringSet::default()
}

/// Calls the derived `StringSet::clone`, which clones the `IndexSet` with its
/// order.
#[verifier::external_body]
pub(crate) fn string_set_clone(set: &StringSet) -> (copy: StringSet)
    ensures
        string_set_items(copy) == string_set_items(*set),
{
    set.clone()
}

/// Calls `StringSet::from_iter`, which inserts the strings into an `IndexSet`
/// one after the other: a string that the set holds already is dropped, the
/// others keep their order.
#[verifier::external_body]
pub(crate) fn string_set_from_vec(strings: Vec<String>) -> (set: StringSet)
    ensures
        string_set_items(set) == first_occurrences(views(strings@)),
{
    strings.into_iter().collect()
}

/// `items` without the repetitions: of equal strings the first stays.
pub open spec fn first_occurrences(items: Seq<Seq<char>>) -> Seq<Seq<char>>
    decreases items.len(),
{
    if items.len() == 0 {
        items
    } else {
        let front = first_occurrences(items.drop_last());
        if front.contains(items.last()) {
            front
        } else {
            front.push(items.last())
        }
    }
}

/// The items of an optional set.
pub open spec fn items_option(set: Option<StringSet>) -> Option<Seq<Seq<char>>> {
    match set {
        Some(s) => Some(string_set_items(s)),
        None => None,
    }
}

/// A copy of an optional set.
pub fn clone_option(set: &Option<StringSet>) -> (copy: Option<StringSet>)
    ensures
        items_option(copy) == items_option(*set),
{
    match set {
        Some(s) => Some(string_set_clone(s)),
        None => None,
    }
}

/// What an optional set resolves to: a copy of the set if present, the empty
/// set otherwise.
pub fn resolve_set(set: &Option<StringSet>) -> (r: StringSet)
    ensures
        string_set_items(r) == or_default(items_option(*set), Seq::<Seq<char>>::empty()),
{
    match set {
        Some(s) => string_set_clone(s),
        None => string_set_empty(),
    }
}

} // verus!
