//! The boundary to `indexmap`: what each list of the manifest holds, and
//! the calls that the edits make on it.
//!
//! An `IndexMap` is opaque to the verifier. What it holds is named here as a
//! sequence of entries in the map's own order, and each call is described
//! by what it does to that sequence. These descriptions are taken from the
//! map's documentation and are trusted, not proved.

use crate::manifest::{Dependencies, Dependency, Entries, Features, Target, Targets};
use indexmap::IndexMap;
use vstd::prelude::*;

verus! {

/// `indexmap::IndexMap`, seen only through the functions of this module.
#[verifier::external_type_specification]
#[verifier::external_body]
#[verifier::reject_recursive_types(K)]
#[verifier::reject_recursive_types(V)]
#[verifier::reject_recursive_types(S)]
pub struct ExIndexMap<K, V, S>(IndexMap<K, V, S>);

/// The entries of a list of dependencies, in the map's order.
pub uninterp spec fn dependency_entries(map: IndexMap<String, Dependency>) -> Seq<
    (Seq<char>, Dependency),
>;

/// The entries of a table of features, in the map's order.
pub uninterp spec fn feature_entries(map: IndexMap<String, Vec<String>>) -> Seq<
    (Seq<char>, Vec<String>),
>;

/// The entries of the platform-conditional sections, in the map's order.
pub uninterp spec fn target_entries(map: IndexMap<String, Target>) -> Seq<(Seq<char>, Target)>;

/// No entry has this key.
pub open spec fn lacks<V>(entries: Entries<V>, key: Seq<char>) -> bool {
    forall|j: int| 0 <= j < entries.len() ==> (#[trigger] entries[j]).0 != key
}

/// The entry at `i` has this key, and no other entry has.
pub open spec fn found_at<V>(entries: Entries<V>, key: Seq<char>, i: int) -> bool {
    &&& 0 <= i < entries.len()
    &&& entries[i].0 == key
    &&& forall|j: int| 0 <= j < entries.len() && j != i ==> (#[trigger] entries[j]).0 != key
}

/// `items` are the entries, each key as a string with the entry's text.
pub open spec fn hands_out<V>(items: Seq<(String, V)>, entries: Entries<V>) -> bool {
    &&& items.len() == entries.len()
    &&& forall|i: int|
        0 <= i < items.len() ==> (#[trigger] items[i]).0@ == entries[i].0 && items[i].1
            == entries[i].1
}

/// `items` point at the entries, in order.
pub open spec fn points_at<V>(items: Seq<(&String, &V)>, entries: Entries<V>) -> bool {
    &&& items.len() == entries.len()
    &&& forall|i: int|
        0 <= i < items.len() ==> (#[trigger] items[i]).0@ == entries[i].0 && *items[i].1
            == entries[i].1
}

/// What `insert` leaves: the value replaced in place where the key is
/// present, the pair added behind the last entry where it is not.
pub open spec fn after_insert<V>(
    before: Entries<V>,
    after: Entries<V>,
    key: Seq<char>,
    value: V,
) -> bool {
    ||| lacks(before, key) && after == before.push((key, value))
    ||| exists|i: int| #[trigger]
        found_at(before, key, i) && after == before.update(i, (key, value))
}

/// What `shift_remove` leaves and returns: the entry with the key taken
/// out, the entries behind it moved up by one, and its value returned;
/// or nothing changed and nothing returned, where the key is absent.
pub open spec fn after_shift_remove<V>(
    before: Entries<V>,
    after: Entries<V>,
    key: Seq<char>,
    taken: Option<V>,
) -> bool {
    match taken {
        Some(value) => exists|i: int| #[trigger] found_at(before, key, i) && value == before[i].1
            && after == before.remove(i),
        None => lacks(before, key) && after == before,
    }
}

/// What `get_mut` lends and leaves: the value under the key is lent, and
/// what comes back stands in its place; nothing else changes.
pub open spec fn after_get_mut<V>(
    before: Entries<V>,
    after: Entries<V>,
    key: Seq<char>,
    lent: V,
    back: V,
) -> bool {
    exists|i: int| #[trigger]
        found_at(before, key, i) && lent == before[i].1 && after == before.update(i, (key, back))
}

/// What `get_index_mut` lends and leaves: the value at `index` is lent, and
/// what comes back stands in its place; nothing else changes.
pub open spec fn after_get_index_mut<V>(
    before: Entries<V>,
    after: Entries<V>,
    index: int,
    lent: V,
    back: V,
) -> bool {
    &&& 0 <= index < before.len()
    &&& lent == before[index].1
    &&& after == before.update(index, (before[index].0, back))
}

/// `IndexMap::new`: a map without entries.
#[verifier::external_body]
pub(crate) fn new_dependencies() -> (map: Dependencies)
    ensures
        dependency_entries(map).len() == 0,
{
    IndexMap::new()
}

/// `IndexMap::insert`, as its documentation states it: an equal key keeps
/// its place and gets the new value; a new key goes last.
#[verifier::external_body]
pub(crate) fn insert_dependency(map: &mut Dependencies, key: String, value: Dependency)
    ensures
        after_insert(dependency_entries(*old(map)), dependency_entries(*final(map)), key@, value),
{
    map.insert(key, value);
}

/// `IndexMap::drain` over the full range: the map is left empty and its
/// entries come out in order.
#[verifier::external_body]
pub(crate) fn drain_dependencies(map: &mut Dependencies) -> (items: Vec<(String, Dependency)>)
    ensures
        hands_out(items@, dependency_entries(*old(map))),
        dependency_entries(*final(map)).len() == 0,
{
    map.drain(..).collect()
}

/// `IndexMap::drain` over the full range: the map is left empty and its
/// entries come out in order.
#[verifier::external_body]
pub(crate) fn drain_targets(map: &mut Targets) -> (items: Vec<(String, Target)>)
    ensures
        hands_out(items@, target_entries(*old(map))),
        target_entries(*final(map)).len() == 0,
{
    map.drain(..).collect()
}

/// `IndexMap::get_mut`: the value under the key, to be changed in place,
/// or nothing, and nothing changed, where the key is absent.
#[verifier::external_body]
pub(crate) fn dependency_mut<'a>(map: &'a mut Dependencies, key: &str) -> (slot: Option<
    &'a mut Dependency,
>)
    ensures
        match slot {
            Some(value) => after_get_mut(
                dependency_entries(*old(map)),
                dependency_entries(*final(map)),
                key@,
                *value,
                *final(value),
            ),
            None => lacks(dependency_entries(*old(map)), key@) && dependency_entries(*final(map))
                == dependency_entries(*old(map)),
        },
{
    map.get_mut(key)
}

/// `IndexMap::iter`: the entries in order, by reference.
#[verifier::external_body]
pub(crate) fn dependency_refs(map: &Dependencies) -> (items: Vec<(&String, &Dependency)>)
    ensures
        points_at(items@, dependency_entries(*map)),
{
    map.iter().collect()
}

/// `IndexMap::shift_remove`, as its documentation states it.
#[verifier::external_body]
pub(crate) fn shift_remove_dependency(map: &mut Dependencies, key: &str) -> (taken: Option<
    Dependency,
>)
    ensures
        after_shift_remove(
            dependency_entries(*old(map)),
            dependency_entries(*final(map)),
            key@,
            taken,
        ),
{
    map.shift_remove(key)
}

/// `IndexMap::shift_remove`, as its documentation states it.
#[verifier::external_body]
pub(crate) fn shift_remove_feature(map: &mut Features, key: &str) -> (taken: Option<Vec<String>>)
    ensures
        after_shift_remove(feature_entries(*old(map)), feature_entries(*final(map)), key@, taken),
{
    map.shift_remove(key)
}

/// `IndexMap::len`: the number of entries.
#[verifier::external_body]
pub(crate) fn feature_count(map: &Features) -> (count: usize)
    ensures
        count == feature_entries(*map).len(),
{
    map.len()
}

/// `IndexMap::get_index_mut`: the value of the entry at `index`, to be
/// changed in place, or nothing, and nothing changed, where `index` is past
/// the last entry. The key of the entry is not handed out.
#[verifier::external_body]
pub(crate) fn feature_list_mut<'a>(map: &'a mut Features, index: usize) -> (slot: Option<
    &'a mut Vec<String>,
>)
    ensures
        match slot {
            Some(list) => after_get_index_mut(
                feature_entries(*old(map)),
                feature_entries(*final(map)),
                index as int,
                *list,
                *final(list),
            ),
            None => index >= feature_entries(*old(map)).len() && feature_entries(*final(map))
                == feature_entries(*old(map)),
        },
{
    map.get_index_mut(index).map(|entry| entry.1)
}

/// `IndexMap::iter`: the entries in order, by reference.
#[verifier::external_body]
pub(crate) fn feature_refs(map: &Features) -> (items: Vec<(&String, &Vec<String>)>)
    ensures
        points_at(items@, feature_entries(*map)),
{
    map.iter().collect()
}

} // verus!
