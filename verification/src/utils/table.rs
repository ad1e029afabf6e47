use dashmap::DashMap;
use std::collections::hash_map::RandomState;
use vstd::prelude::*;

verus! {

/// `dashmap::DashMap`: a concurrent hash map. What it holds is spoken of
/// through [`entries`]; the map itself is never looked into.
#[verifier::external_type_specification]
#[verifier::external_body]
#[verifier::reject_recursive_types(K)]
#[verifier::reject_recursive_types(V)]
#[verifier::reject_recursive_types(S)]
pub struct ExDashMap<K, V, S>(DashMap<K, V, S>);

/// A concurrent map from one 64-bit number to another.
pub type Table = DashMap<u64, u64, RandomState>;

/// The entries that a table holds. The functions below say what the methods
/// of `DashMap` do to them, each for a caller that holds the map exclusively
/// or does not change it.
pub uninterp spec fn entries(table: Table) -> Map<u64, u64>;

/// The map without any entry.
pub open spec fn no_entries() -> Map<u64, u64> {
    Map::empty()
}

/// The value under `key`, if there is one.
pub open spec fn lookup(map: Map<u64, u64>, key: u64) -> Option<u64> {
    if map.contains_key(key) {
        Some(map[key])
    } else {
        None
    }
}

/// `DashMap::new`: the new map has no entry.
#[verifier::external_body]
pub(crate) fn table_new() -> (table: Table)
    ensures
        entries(table) == no_entries(),
{
    DashMap::new()
}

/// `DashMap::insert`, for a map that the caller holds exclusively: afterwards
/// `key` maps to `value` and every other entry is as before. It returns the
/// value that `key` had.
#[verifier::external_body]
pub(crate) fn table_insert(table: &mut Table, key: u64, value: u64) -> (previous: Option<u64>)
    ensures
        entries(*final(table)) == entries(*old(table)).insert(key, value),
        previous == lookup(entries(*old(table)), key),
{
    table.insert(key, value)
}

/// `DashMap::remove`, for a map that the caller holds exclusively: afterwards
/// `key` has no entry and every other entry is as before. It returns the value
/// that `key` had.
#[verifier::external_body]
pub(crate) fn table_remove(table: &mut Table, key: u64) -> (previous: Option<u64>)
    ensures
        entries(*final(table)) == entries(*old(table)).remove(key),
        previous == lookup(entries(*old(table)), key),
{
    table.remove(&key).map(|pair| pair.1)
}

/// `DashMap::get`: a copy of the value under `key`, if there is one.
#[verifier::external_body]
pub(crate) fn table_get(table: &Table, key: u64) -> (value: Option<u64>)
    ensures
        value == lookup(entries(*table), key),
{
    table.get(&key).map(|entry| *entry.value())
}

/// `DashMap::iter`, reduced to the keys: every key of the map once, in no
/// particular order.
#[verifier::external_body]
pub(crate) fn table_keys(table: &Table) -> (keys: Vec<u64>)
    ensures
        keys@.no_duplicates(),
        forall|key: u64| keys@.contains(key) <==> entries(*table).contains_key(key),
{
    table.iter().map(|entry| *entry.key()).collect()
}

/// `DashMap::clear`, for a map that the caller holds exclusively: afterwards
/// the map has no entry.
#[verifier::external_body]
pub(crate) fn table_clear(table: &mut Table)
    ensures
        entries(*final(table)) == no_entries(),
{
    table.clear()
}

/// `DashMap::is_empty`: whether the map has no entry.
#[verifier::external_body]
pub(crate) fn table_is_empty(table: &Table) -> (empty: bool)
    ensures
        empty <==> forall|key: u64| !entries(*table).contains_key(key),
{
    table.is_empty()
}

/// A concurrent map from the identity of an actor to its name, if it has one.
pub type Names = DashMap<u64, Option<String>, RandomState>;

/// The entries that a map of names holds, each name as its characters. The
/// functions below say what the methods of `DashMap` do to them.
pub uninterp spec fn labels(names: Names) -> Map<u64, Option<Seq<char>>>;

/// The map of names without any entry.
pub open spec fn no_labels() -> Map<u64, Option<Seq<char>>> {
    Map::empty()
}

/// The characters of a name, if there is one.
pub open spec fn label_of(name: Option<String>) -> Option<Seq<char>> {
    match name {
        Some(text) => Some(text@),
        None => None,
    }
}

/// The characters of what a lookup found: nothing, an entry without a name,
/// or a name.
pub open spec fn found_label(found: Option<Option<String>>) -> Option<Option<Seq<char>>> {
    match found {
        Some(name) => Some(label_of(name)),
        None => None,
    }
}

/// The entry under `id`, if there is one.
pub open spec fn lookup_label(map: Map<u64, Option<Seq<char>>>, id: u64) -> Option<
    Option<Seq<char>>,
> {
    if map.contains_key(id) {
        Some(map[id])
    } else {
        None
    }
}

/// `DashMap::new`: the new map has no entry.
#[verifier::external_body]
pub(crate) fn names_new() -> (names: Names)
    ensures
        labels(names) == no_labels(),
{
    DashMap::new()
}

/// `DashMap::insert`, for a map that the caller holds exclusively: afterwards
/// `id` maps to `name` and every other entry is as before.
#[verifier::external_body]
pub(crate) fn names_insert(names: &mut Names, id: u64, name: Option<String>)
    ensures
        labels(*final(names)) == labels(*old(names)).insert(id, label_of(name)),
{
    names.insert(id, name);
}

/// `DashMap::get`: a copy of the entry under `id`, if there is one.
#[verifier::external_body]
pub(crate) fn names_get(names: &Names, id: u64) -> (found: Option<Option<String>>)
    ensures
        found_label(found) == lookup_label(labels(*names), id),
{
    names.get(&id).map(|entry| entry.value().clone())
}

} // verus!
