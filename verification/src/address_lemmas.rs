//! What holds of the address book over one and over many operations.

use vstd::prelude::*;
use crate::address::{
    controllers_of, find_spec, insert_spec, lemma_lower_bound_from, lemma_position_from,
    lower_bound_from, merged, position, remove_spec, sorted, AddressEntry, Role,
};
use crate::identity::Identity;

verus! {

/// After an insert, the inserted identity is found with the merged entry, or
/// with the inserted entry itself if the identity was new.
pub proof fn lemma_find_inserted(entries: Seq<AddressEntry>, entry: AddressEntry)
    ensures
        find_spec(insert_spec(entries, entry), entry.id) == Some(
            match find_spec(entries, entry.id) {
                Some(existing) => merged(existing, entry),
                None => entry,
            },
        ),
{
    let id = entry.id;
    let after = insert_spec(entries, entry);
    lemma_position_from(entries, id, 0);
    lemma_position_from(after, id, 0);
    match position(entries, id) {
        Some(i) => {
            assert(after[i].id == id);
        },
        None => {
            lemma_lower_bound_from(entries, id, 0);
            let p = lower_bound_from(entries, id, 0);
            assert(after[p] == entry);
        },
    }
}

/// An insert leaves every other identity as it was.
pub proof fn lemma_find_other_after_insert(
    entries: Seq<AddressEntry>,
    entry: AddressEntry,
    other: Identity,
)
    requires
        other != entry.id,
    ensures
        find_spec(insert_spec(entries, entry), other) == find_spec(entries, other),
{
    let id = entry.id;
    let after = insert_spec(entries, entry);
    lemma_position_from(entries, id, 0);
    lemma_position_from(entries, other, 0);
    lemma_position_from(after, other, 0);
    match (position(entries, id), position(entries, other)) {
        (Some(_), None) => {
            assert forall|j: int| 0 <= j < after.len() implies after[j].id != other by {}
        },
        (None, Some(k)) => {
            lemma_lower_bound_from(entries, id, 0);
            let p = lower_bound_from(entries, id, 0);
            let k2 = if k < p {
                k
            } else {
                k + 1
            };
            assert(after[k2] == entries[k]);
            assert forall|j: int| 0 <= j < k2 implies after[j].id != other by {}
        },
        (None, None) => {
            lemma_lower_bound_from(entries, id, 0);
        },
        _ => {},
    }
}

/// After a removal from a well-formed book the identity is gone.
pub proof fn lemma_find_removed(entries: Seq<AddressEntry>, id: Identity)
    requires
        sorted(entries),
    ensures
        find_spec(remove_spec(entries, id), id) is None,
{
    let after = remove_spec(entries, id);
    lemma_position_from(entries, id, 0);
    lemma_position_from(after, id, 0);
    if let Some(i) = position(entries, id) {
        assert forall|j: int| 0 <= j < after.len() implies after[j].id != id by {
            if j >= i {
                Identity::lemma_precedes_asymmetric(entries[i].id, entries[j + 1].id);
            }
        }
    }
}

/// A removal leaves every other identity as it was.
pub proof fn lemma_find_other_after_remove(entries: Seq<AddressEntry>, id: Identity, other: Identity)
    requires
        other != id,
    ensures
        find_spec(remove_spec(entries, id), other) == find_spec(entries, other),
{
    let after = remove_spec(entries, id);
    lemma_position_from(entries, id, 0);
    lemma_position_from(entries, other, 0);
    lemma_position_from(after, other, 0);
    if let (Some(i), Some(k)) = (position(entries, id), position(entries, other)) {
        let k2 = if k < i {
            k
        } else {
            k - 1
        };
        assert(after[k2] == entries[k]);
    }
}

/// The controllers of two lists laid end to end are the controllers of each, end to end.
pub proof fn lemma_controllers_concat(a: Seq<AddressEntry>, b: Seq<AddressEntry>)
    ensures
        controllers_of(a + b) == controllers_of(a) + controllers_of(b),
    decreases b.len(),
{
    if b.len() > 0 {
        assert((a + b).drop_last() =~= a + b.drop_last());
        lemma_controllers_concat(a, b.drop_last());
    }
}

/// How many of a single entry are controllers: one or none.
pub open spec fn controller_weight(entry: AddressEntry) -> int {
    if entry.role == Role::Controller {
        1
    } else {
        0
    }
}

proof fn lemma_controllers_single(entry: AddressEntry)
    ensures
        controllers_of(seq![entry]).len() == controller_weight(entry),
{
    assert(controllers_of(seq![entry].drop_last()).len() == 0);
}

/// Replacing one entry changes the number of controllers by the difference
/// between what the new entry and the old one count for.
pub proof fn lemma_controllers_update(entries: Seq<AddressEntry>, i: int, entry: AddressEntry)
    requires
        0 <= i < entries.len(),
    ensures
        controllers_of(entries.update(i, entry)).len() == controllers_of(entries).len()
            - controller_weight(entries[i]) + controller_weight(entry),
{
    let left = entries.subrange(0, i);
    let right = entries.subrange(i + 1, entries.len() as int);
    assert(entries =~= left + seq![entries[i]] + right);
    assert(entries.update(i, entry) =~= left + seq![entry] + right);
    lemma_controllers_concat(left + seq![entries[i]], right);
    lemma_controllers_concat(left, seq![entries[i]]);
    lemma_controllers_concat(left + seq![entry], right);
    lemma_controllers_concat(left, seq![entry]);
    lemma_controllers_single(entries[i]);
    lemma_controllers_single(entry);
}

/// Removing one entry lowers the number of controllers by what that entry counts for.
pub proof fn lemma_controllers_remove(entries: Seq<AddressEntry>, i: int)
    requires
        0 <= i < entries.len(),
    ensures
        controllers_of(entries.remove(i)).len() == controllers_of(entries).len()
            - controller_weight(entries[i]),
{
    let left = entries.subrange(0, i);
    let right = entries.subrange(i + 1, entries.len() as int);
    assert(entries =~= left + seq![entries[i]] + right);
    lemma_controllers_concat(left + seq![entries[i]], right);
    lemma_controllers_concat(left, seq![entries[i]]);
    lemma_controllers_concat(left, right);
    lemma_controllers_single(entries[i]);
}

/// Adding one entry raises the number of controllers by what that entry counts for.
pub proof fn lemma_controllers_insert(entries: Seq<AddressEntry>, i: int, entry: AddressEntry)
    requires
        0 <= i <= entries.len(),
    ensures
        controllers_of(entries.insert(i, entry)).len() == controllers_of(entries).len()
            + controller_weight(entry),
{
    let left = entries.subrange(0, i);
    let right = entries.subrange(i, entries.len() as int);
    assert(entries =~= left + right);
    assert(entries.insert(i, entry) =~= left + seq![entry] + right);
    lemma_controllers_concat(left, right);
    lemma_controllers_concat(left + seq![entry], right);
    lemma_controllers_concat(left, seq![entry]);
    lemma_controllers_single(entry);
}

/// A controller that `find_spec` finds is counted among the controllers.
pub proof fn lemma_found_controller_counts(entries: Seq<AddressEntry>, id: Identity)
    requires
        find_spec(entries, id) matches Some(e) && e.role == Role::Controller,
    ensures
        controllers_of(entries).len() >= 1,
{
    lemma_position_from(entries, id, 0);
    let i = position(entries, id)->0;
    let left = entries.subrange(0, i);
    let right = entries.subrange(i + 1, entries.len() as int);
    assert(entries =~= left + seq![entries[i]] + right);
    lemma_controllers_concat(left + seq![entries[i]], right);
}

/// The entries after each of `inserted` has been inserted, first to last.
pub open spec fn insert_all(entries: Seq<AddressEntry>, inserted: Seq<AddressEntry>) -> Seq<
    AddressEntry,
>
    decreases inserted.len(),
{
    if inserted.len() == 0 {
        entries
    } else {
        insert_spec(insert_all(entries, inserted.drop_last()), inserted.last())
    }
}

/// The name that the last of `inserted` to carry one supplies, if any does.
pub open spec fn latest_name(inserted: Seq<AddressEntry>) -> Option<String>
    decreases inserted.len(),
{
    if inserted.len() == 0 {
        None
    } else if inserted.last().name is Some {
        inserted.last().name
    } else {
        latest_name(inserted.drop_last())
    }
}

/// However often and in whatever order one identity is inserted, the book ends
/// with the highest role ever inserted for it (or held before): no inserted role
/// is higher than the final one, and the final one was inserted or held. Its name
/// is the most recently supplied one, or the one held before if none was supplied.
pub proof fn lemma_insert_all_same_identity(
    entries: Seq<AddressEntry>,
    inserted: Seq<AddressEntry>,
    id: Identity,
)
    requires
        inserted.len() > 0,
        forall|i: int| 0 <= i < inserted.len() ==> inserted[i].id == id,
    ensures
        find_spec(insert_all(entries, inserted), id) matches Some(e) && {
            &&& e.id == id
            &&& forall|i: int|
                0 <= i < inserted.len() ==> inserted[i].role.spec_rank() <= e.role.spec_rank()
            &&& find_spec(entries, id) matches Some(before) ==> before.role.spec_rank()
                <= e.role.spec_rank()
            &&& (exists|i: int| 0 <= i < inserted.len() && inserted[i].role == e.role) || (
            find_spec(entries, id) matches Some(before) && before.role == e.role)
            &&& e.name == match latest_name(inserted) {
                Some(name) => Some(name),
                None => match find_spec(entries, id) {
                    Some(before) => before.name,
                    None => None,
                },
            }
        },
    decreases inserted.len(),
{
    let head = inserted.drop_last();
    let last = inserted.last();
    lemma_find_inserted(insert_all(entries, head), last);
    let e = find_spec(insert_all(entries, inserted), id)->0;
    if head.len() == 0 {
        lemma_position_from(entries, id, 0);
    } else {
        lemma_insert_all_same_identity(entries, head, id);
        assert forall|i: int| 0 <= i < inserted.len() implies inserted[i].role.spec_rank()
            <= e.role.spec_rank() by {
            if i < head.len() {
                assert(head[i] == inserted[i]);
            }
        }
    }
}

} // verus!
