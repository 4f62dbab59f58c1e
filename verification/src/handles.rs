//! Entries that are filed under handles.
//!
//! Both registries of this crate find their entries by handle. To the outside
//! a registry is a map from handles to entries. Inside, it keeps its entries
//! in a vector, in the order in which they came, and sees to it that no two of
//! them share a handle. This module states what a map of entries has to
//! fulfil, says which map a sequence of entries stands for, and proves how
//! that map follows the sequence when an entry joins, changes or leaves.

use vstd::prelude::*;

verus! {

/// A value that is filed under a handle.
pub trait Handled {
    /// The handle under which the value is filed.
    spec fn handle(&self) -> Seq<char>;
}

/// There are finitely many `entries`, and each is filed under the handle that
/// it carries itself. So no two entries carry the same handle.
pub open spec fn filed_by_handle<T: Handled>(entries: Map<Seq<char>, T>) -> bool {
    &&& entries.dom().finite()
    &&& forall|handle: Seq<char>| #[trigger]
        entries.contains_key(handle) ==> entries[handle].handle() == handle
}

/// No two of `entries` carry the same handle.
pub open spec fn no_shared_handle<T: Handled>(entries: Map<Seq<char>, T>) -> bool {
    forall|a: Seq<char>, b: Seq<char>|
        #![trigger entries[a], entries[b]]
        entries.contains_key(a) && entries.contains_key(b) && a != b ==> entries[a].handle()
            != entries[b].handle()
}

/// Entries that are filed under the handles that they carry do not share
/// handles.
pub proof fn lemma_filed_entries_share_no_handle<T: Handled>(entries: Map<Seq<char>, T>)
    requires
        filed_by_handle(entries),
    ensures
        no_shared_handle(entries),
{
}

/// No two of `entries` carry the same handle.
pub open spec fn distinct_handles<T: Handled>(entries: Seq<T>) -> bool {
    forall|i: int, j: int|
        #![trigger entries[i], entries[j]]
        0 <= i < j < entries.len() ==> entries[i].handle() != entries[j].handle()
}

/// Whether one of `entries` carries `handle`.
pub open spec fn has_handle<T: Handled>(entries: Seq<T>, handle: Seq<char>) -> bool {
    exists|i: int| 0 <= i < entries.len() && (#[trigger] entries[i]).handle() == handle
}

/// Where among `entries` one that carries `handle` stands, if there is one.
pub open spec fn index_of_handle<T: Handled>(entries: Seq<T>, handle: Seq<char>) -> int {
    choose|i: int| 0 <= i < entries.len() && (#[trigger] entries[i]).handle() == handle
}

/// The map that `entries` stand for: each handle that occurs leads to an entry
/// that carries it.
pub open spec fn entry_map<T: Handled>(entries: Seq<T>) -> Map<Seq<char>, T> {
    Map::new(
        |handle: Seq<char>| has_handle(entries, handle),
        |handle: Seq<char>| entries[index_of_handle(entries, handle)],
    )
}

/// Among entries with distinct handles, a handle leads to the one entry that
/// carries it.
pub proof fn lemma_handle_names_place<T: Handled>(entries: Seq<T>, handle: Seq<char>, i: int)
    requires
        distinct_handles(entries),
        0 <= i < entries.len(),
        entries[i].handle() == handle,
    ensures
        has_handle(entries, handle),
        index_of_handle(entries, handle) == i,
        entry_map(entries).contains_key(handle),
        entry_map(entries)[handle] == entries[i],
{
}

/// Entries with distinct handles stand for a map with one entry for each of
/// them, each filed under the handle that it carries.
pub proof fn lemma_entry_map_is_filed<T: Handled>(entries: Seq<T>)
    requires
        distinct_handles(entries),
    ensures
        filed_by_handle(entry_map(entries)),
        entry_map(entries).len() == entries.len(),
{
    // The handles in use are those that the entries carry, each once.
    let handles = Seq::new(entries.len(), |i: int| entries[i].handle());
    assert(handles.no_duplicates());
    assert forall|handle: Seq<char>| entry_map(entries).dom().contains(handle)
        == handles.to_set().contains(handle) by {
        if has_handle(entries, handle) {
            assert(handles[index_of_handle(entries, handle)] == handle);
        }
    }
    assert(entry_map(entries).dom() =~= handles.to_set());
    vstd::seq_lib::seq_to_set_is_finite(handles);
    handles.unique_seq_to_set();
}

/// When an entry joins whose handle is not in use, the handles stay distinct
/// and the map gains the entry under its handle.
pub proof fn lemma_entry_map_push<T: Handled>(entries: Seq<T>, entry: T)
    requires
        distinct_handles(entries),
        !entry_map(entries).contains_key(entry.handle()),
    ensures
        distinct_handles(entries.push(entry)),
        entry_map(entries.push(entry)) == entry_map(entries).insert(entry.handle(), entry),
{
    let after = entries.push(entry);
    let expected = entry_map(entries).insert(entry.handle(), entry);
    assert(distinct_handles(after));
    assert forall|handle: Seq<char>| #[trigger]
        entry_map(after).contains_key(handle) == expected.contains_key(handle) && (entry_map(
            after,
        ).contains_key(handle) ==> entry_map(after)[handle] == expected[handle]) by {
        if handle == entry.handle() {
            lemma_handle_names_place(after, handle, entries.len() as int);
        } else if has_handle(entries, handle) {
            lemma_handle_names_place(after, handle, index_of_handle(entries, handle));
        }
    }
}

/// When an entry is replaced by one that carries the same handle, the handles
/// stay distinct and the map holds the new entry under that handle.
pub proof fn lemma_entry_map_update<T: Handled>(entries: Seq<T>, i: int, entry: T)
    requires
        distinct_handles(entries),
        0 <= i < entries.len(),
        entry.handle() == entries[i].handle(),
    ensures
        distinct_handles(entries.update(i, entry)),
        entry_map(entries.update(i, entry)) == entry_map(entries).insert(entry.handle(), entry),
{
    let after = entries.update(i, entry);
    let expected = entry_map(entries).insert(entry.handle(), entry);
    assert(distinct_handles(after));
    assert forall|handle: Seq<char>| #[trigger]
        entry_map(after).contains_key(handle) == expected.contains_key(handle) && (entry_map(
            after,
        ).contains_key(handle) ==> entry_map(after)[handle] == expected[handle]) by {
        if handle == entry.handle() {
            lemma_handle_names_place(after, handle, i);
        } else if has_handle(entries, handle) {
            lemma_handle_names_place(after, handle, index_of_handle(entries, handle));
        }
    }
}

/// When an entry leaves, the handles stay distinct and the map loses the
/// handle that the entry carried.
pub proof fn lemma_entry_map_remove<T: Handled>(entries: Seq<T>, i: int)
    requires
        distinct_handles(entries),
        0 <= i < entries.len(),
    ensures
        distinct_handles(entries.remove(i)),
        entry_map(entries.remove(i)) == entry_map(entries).remove(entries[i].handle()),
{
    let after = entries.remove(i);
    let expected = entry_map(entries).remove(entries[i].handle());
    // What stood behind the entry has moved up by one place.
    assert forall|a: int| 0 <= a < after.len() implies #[trigger] after[a] == entries[if a < i {
        a
    } else {
        a + 1
    }] by {}
    assert(distinct_handles(after));
    assert forall|handle: Seq<char>| #[trigger]
        entry_map(after).contains_key(handle) == expected.contains_key(handle) && (entry_map(
            after,
        ).contains_key(handle) ==> entry_map(after)[handle] == expected[handle]) by {
        if has_handle(after, handle) {
            let k = index_of_handle(after, handle);
            lemma_handle_names_place(entries, handle, if k < i { k } else { k + 1 });
        } else if handle != entries[i].handle() && has_handle(entries, handle) {
            let k = index_of_handle(entries, handle);
            assert(after[if k < i { k } else { k - 1 }] == entries[k]);
        }
    }
}

} // verus!
