//! The insertion-ordered maps that hold the per-target records.
//!
//! The maps are `indexmap::IndexMap`s. What such a map holds is named by a
//! specification function, and each method that the library calls is reached
//! through a function here whose contract states, over that name, what the
//! method does. These contracts are taken from the documentation and source of
//! `indexmap`; they are not proved. Keys are identities, which compare and hash
//! field by field.

use vstd::prelude::*;
use indexmap::IndexMap;
use crate::events::{new_target, ManagedCanister};
use crate::identity::Identity;
use crate::migrations::v1::{new_v1_target, V1ManagedCanister};

verus! {

/// `indexmap::IndexMap`, taken as it is: nothing inside a map is seen but
/// through the functions below.
#[verifier::external_type_specification]
#[verifier::external_body]
#[verifier::reject_recursive_types(K)]
#[verifier::reject_recursive_types(V)]
#[verifier::reject_recursive_types(S)]
pub struct ExIndexMap<K, V, S>(IndexMap<K, V, S>);

/// The key-value pairs of a map of current records, in the map's order.
pub uninterp spec fn managed_entries(map: IndexMap<Identity, ManagedCanister>) -> Seq<
    (Identity, ManagedCanister),
>;

/// The key-value pairs of a map of version-1 records, in the map's order.
pub uninterp spec fn v1_managed_entries(map: IndexMap<Identity, V1ManagedCanister>) -> Seq<
    (Identity, V1ManagedCanister),
>;

/// The index of the first pair at or after `from` whose key is `key`.
pub open spec fn key_index_from<V>(entries: Seq<(Identity, V)>, key: Identity, from: int) -> Option<
    int,
>
    decreases entries.len() - from,
{
    if from < 0 || from >= entries.len() {
        None
    } else if entries[from].0 == key {
        Some(from)
    } else {
        key_index_from(entries, key, from + 1)
    }
}

/// The index of the pair whose key is `key`.
pub open spec fn key_index<V>(entries: Seq<(Identity, V)>, key: Identity) -> Option<int> {
    key_index_from(entries, key, 0)
}

/// What `key_index_from` returns is the first pair with the key, and it returns
/// `None` only if no pair has it.
pub proof fn lemma_key_index_from<V>(entries: Seq<(Identity, V)>, key: Identity, from: int)
    requires
        0 <= from <= entries.len(),
    ensures
        match key_index_from(entries, key, from) {
            Some(i) => from <= i < entries.len() && entries[i].0 == key && forall|j: int|
                from <= j < i ==> entries[j].0 != key,
            None => forall|j: int| from <= j < entries.len() ==> entries[j].0 != key,
        },
    decreases entries.len() - from,
{
    if from < entries.len() && entries[from].0 != key {
        lemma_key_index_from(entries, key, from + 1);
    }
}

/// `IndexMap::new`: a map without pairs.
#[verifier::external_body]
pub(crate) fn managed_map_new() -> (map: IndexMap<Identity, ManagedCanister>)
    ensures
        managed_entries(map) == Seq::<(Identity, ManagedCanister)>::empty(),
{
    IndexMap::new()
}

/// `IndexMap::len`: the number of pairs.
#[verifier::external_body]
pub(crate) fn managed_map_len(map: &IndexMap<Identity, ManagedCanister>) -> (n: usize)
    ensures
        n == managed_entries(*map).len(),
{
    map.len()
}

/// `IndexMap::get_index_of`: the position of the pair with this key, `None`
/// if the map has no such pair. A map holds no key twice, so the pair is the
/// first and only one with the key.
#[verifier::external_body]
pub(crate) fn managed_map_index_of(map: &IndexMap<Identity, ManagedCanister>, key: &Identity) -> (r:
    Option<usize>)
    ensures
        match r {
            Some(i) => key_index(managed_entries(*map), *key) == Some(i as int),
            None => key_index(managed_entries(*map), *key) is None,
        },
{
    map.get_index_of(key)
}

/// `IndexMap::get_index`: the value of the pair at a position.
#[verifier::external_body]
pub(crate) fn managed_map_value_at(map: &IndexMap<Identity, ManagedCanister>, index: usize) -> (r:
    &ManagedCanister)
    requires
        index < managed_entries(*map).len(),
    ensures
        *r == managed_entries(*map)[index as int].1,
{
    map.get_index(index).unwrap().1
}

/// `IndexMap::get_index_mut`: the value of the pair at a position, to be
/// changed in place. The key and every other pair stay as they are.
#[verifier::external_body]
pub(crate) fn managed_map_value_at_mut(
    map: &mut IndexMap<Identity, ManagedCanister>,
    index: usize,
) -> (r: &mut ManagedCanister)
    requires
        index < managed_entries(*old(map)).len(),
    ensures
        *r == managed_entries(*old(map))[index as int].1,
        managed_entries(*final(map)) == managed_entries(*old(map)).update(
            index as int,
            (managed_entries(*old(map))[index as int].0, *final(r)),
        ),
{
    map.get_index_mut(index).unwrap().1
}

/// `IndexMap::insert`: where the key is present its value is replaced and the
/// pair keeps its place; else the pair is added last.
#[verifier::external_body]
pub(crate) fn managed_map_insert(
    map: &mut IndexMap<Identity, ManagedCanister>,
    key: Identity,
    value: ManagedCanister,
)
    ensures
        managed_entries(*final(map)) == match key_index(managed_entries(*old(map)), key) {
            Some(i) => managed_entries(*old(map)).update(i, (key, value)),
            None => managed_entries(*old(map)).push((key, value)),
        },
{
    map.insert(key, value);
}

/// `IndexMap::entry` followed by `Entry::or_insert_with`: the value of the
/// pair with this key, to be changed in place. Where the key is absent, a
/// pair with a fresh record for it, created at `created_at`, is first added
/// last. Every other pair stays as it is.
#[verifier::external_body]
pub(crate) fn managed_map_entry(
    map: &mut IndexMap<Identity, ManagedCanister>,
    key: Identity,
    created_at: u64,
) -> (r: &mut ManagedCanister)
    ensures
        match key_index(managed_entries(*old(map)), key) {
            Some(i) => {
                &&& *r == managed_entries(*old(map))[i].1
                &&& managed_entries(*final(map)) == managed_entries(*old(map)).update(
                    i,
                    (key, *final(r)),
                )
            },
            None => {
                &&& r@ == new_target(key, created_at)
                &&& managed_entries(*final(map)) == managed_entries(*old(map)).push(
                    (key, *final(r)),
                )
            },
        },
{
    map.entry(key).or_insert_with(|| ManagedCanister::new(key, created_at))
}

/// `IndexMap::new`: a map without pairs.
#[verifier::external_body]
pub(crate) fn v1_map_new() -> (map: IndexMap<Identity, V1ManagedCanister>)
    ensures
        v1_managed_entries(map) == Seq::<(Identity, V1ManagedCanister)>::empty(),
{
    IndexMap::new()
}

/// `IndexMap::len`: the number of pairs.
#[verifier::external_body]
pub(crate) fn v1_map_len(map: &IndexMap<Identity, V1ManagedCanister>) -> (n: usize)
    ensures
        n == v1_managed_entries(*map).len(),
{
    map.len()
}

/// `IndexMap::get_index`: the key and the value of the pair at a position. A map
/// holds no key twice, so no other pair has this key.
#[verifier::external_body]
pub(crate) fn v1_map_pair_at(map: &IndexMap<Identity, V1ManagedCanister>, index: usize) -> (r: (
    &Identity,
    &V1ManagedCanister,
))
    requires
        index < v1_managed_entries(*map).len(),
    ensures
        *r.0 == v1_managed_entries(*map)[index as int].0,
        *r.1 == v1_managed_entries(*map)[index as int].1,
        forall|j: int|
            0 <= j < v1_managed_entries(*map).len() && j != index ==> (
            #[trigger] v1_managed_entries(*map)[j]).0 != *r.0,
{
    map.get_index(index).unwrap()
}

/// `IndexMap::insert`: where the key is present its value is replaced and the
/// pair keeps its place; else the pair is added last.
#[verifier::external_body]
pub(crate) fn v1_map_insert(
    map: &mut IndexMap<Identity, V1ManagedCanister>,
    key: Identity,
    value: V1ManagedCanister,
)
    ensures
        v1_managed_entries(*final(map)) == match key_index(v1_managed_entries(*old(map)), key) {
            Some(i) => v1_managed_entries(*old(map)).update(i, (key, value)),
            None => v1_managed_entries(*old(map)).push((key, value)),
        },
{
    map.insert(key, value);
}

/// `IndexMap::entry` followed by `Entry::or_insert_with`: the value of the
/// pair with this key, to be changed in place. Where the key is absent, a
/// pair with a fresh record for it, created at `created_at`, is first added
/// last. Every other pair stays as it is.
#[verifier::external_body]
pub(crate) fn v1_map_entry(
    map: &mut IndexMap<Identity, V1ManagedCanister>,
    key: Identity,
    created_at: u64,
) -> (r: &mut V1ManagedCanister)
    ensures
        match key_index(v1_managed_entries(*old(map)), key) {
            Some(i) => {
                &&& *r == v1_managed_entries(*old(map))[i].1
                &&& v1_managed_entries(*final(map)) == v1_managed_entries(*old(map)).update(
                    i,
                    (key, *final(r)),
                )
            },
            None => {
                &&& r@ == new_v1_target(key, created_at)
                &&& v1_managed_entries(*final(map)) == v1_managed_entries(*old(map)).push(
                    (key, *final(r)),
                )
            },
        },
{
    map.entry(key).or_insert_with(|| V1ManagedCanister::new(key, created_at))
}

} // verus!
