//! The cache of the layers above the content layer: for each query that was
//! completed, its value, what its derivation read, and the revision at which
//! it was completed. A cached value stands while none of the inputs that were
//! read has been set since.

use vstd::prelude::*;
use crate::engine::{deps_view, Dep, DepView};
use crate::store::InputStore;

verus! {

/// The cached result of one query.
#[derive(Debug)]
pub struct Entry {
    pub kind: String,
    pub arg: String,
    pub value: String,
    /// What the derivation read, the reads of the queries it asked for included.
    pub reads: Vec<Dep>,
    pub verified_at: u64,
}

/// The entry at `i` is for the query of `kind` and `arg`.
pub open spec fn keyed(entries: Seq<Entry>, kind: Seq<char>, arg: Seq<char>, i: int) -> bool {
    0 <= i < entries.len() && entries[i].kind@ == kind && entries[i].arg@ == arg
}

/// The entry at `i` is the first for the query of `kind` and `arg`.
pub open spec fn entry_at(entries: Seq<Entry>, kind: Seq<char>, arg: Seq<char>, i: int) -> bool {
    keyed(entries, kind, arg, i) && forall|j: int| 0 <= j < i ==> !keyed(entries, kind, arg, j)
}

/// The query of `kind` and `arg` has an entry.
pub open spec fn has_entry(entries: Seq<Entry>, kind: Seq<char>, arg: Seq<char>) -> bool {
    exists|i: int| entry_at(entries, kind, arg, i)
}

/// Where the entry of a query is.
pub open spec fn entry_index(entries: Seq<Entry>, kind: Seq<char>, arg: Seq<char>) -> int {
    choose|i: int| entry_at(entries, kind, arg, i)
}

/// The entry of a query.
pub open spec fn entry_of(entries: Seq<Entry>, kind: Seq<char>, arg: Seq<char>) -> Entry {
    entries[entry_index(entries, kind, arg)]
}

/// A query has one first entry.
pub proof fn lemma_entry_at(entries: Seq<Entry>, kind: Seq<char>, arg: Seq<char>, i: int)
    requires
        entry_at(entries, kind, arg, i),
    ensures
        has_entry(entries, kind, arg),
        entry_index(entries, kind, arg) == i,
{
    let c = entry_index(entries, kind, arg);
    assert(entry_at(entries, kind, arg, c));
    if c < i {
        assert(!keyed(entries, kind, arg, c));
    }
    if i < c {
        assert(!keyed(entries, kind, arg, i));
    }
}

/// The dependency names no input that was set after revision `at`. A query
/// among the dependencies is covered by the inputs recorded with it.
pub open spec fn unchanged_since(inputs: InputStore, d: DepView, at: u64) -> bool {
    match d {
        DepView::Text(n) => inputs.texts.has(n) ==> inputs.texts.slot(n).changed_at <= at,
        DepView::Blob(n) => inputs.blobs.has(n) ==> inputs.blobs.slot(n).changed_at <= at,
        DepView::Query(_, _) => true,
    }
}

/// The cached value stands: nothing that was read for it has been set since.
pub open spec fn stands(inputs: InputStore, e: Entry) -> bool {
    forall|i: int|
        0 <= i < e.reads@.len() ==> unchanged_since(inputs, #[trigger] deps_view(e.reads)[i], e.verified_at)
}

/// Finds the entry of a query.
pub fn find_entry(entries: &Vec<Entry>, kind: &String, arg: &String) -> (r: Option<usize>)
    ensures
        match r {
            Some(i) => entry_at(entries@, kind@, arg@, i as int),
            None => !has_entry(entries@, kind@, arg@) && forall|j: int|
                !keyed(entries@, kind@, arg@, j),
        },
{
    let mut i: usize = 0;
    while i < entries.len()
        invariant
            i <= entries@.len(),
            forall|j: int| 0 <= j < i ==> !keyed(entries@, kind@, arg@, j),
        decreases entries@.len() - i,
    {
        if entries[i].kind == *kind && entries[i].arg == *arg {
            return Some(i);
        }
        i += 1;
    }
    assert forall|k: int| !entry_at(entries@, kind@, arg@, k) by {
        if 0 <= k < entries@.len() {
            assert(!keyed(entries@, kind@, arg@, k));
        }
    }
    None
}

/// Tells whether a dependency names no input that was set after revision `at`.
pub fn is_unchanged(inputs: &InputStore, d: &Dep, at: u64) -> (r: bool)
    requires
        inputs.inv(),
    ensures
        r == unchanged_since(*inputs, d@, at),
{
    match d {
        Dep::Text(n) => match inputs.texts.get(n) {
            Some(slot) => slot.changed_at <= at,
            None => true,
        },
        Dep::Blob(n) => match inputs.blobs.get(n) {
            Some(slot) => slot.changed_at <= at,
            None => true,
        },
        Dep::Query(_, _) => true,
    }
}

/// Tells whether a cached value stands.
pub fn still_stands(inputs: &InputStore, e: &Entry) -> (r: bool)
    requires
        inputs.inv(),
    ensures
        r == stands(*inputs, *e),
{
    let mut i: usize = 0;
    while i < e.reads.len()
        invariant
            inputs.inv(),
            i <= e.reads@.len(),
            forall|j: int|
                0 <= j < i ==> unchanged_since(*inputs, #[trigger] deps_view(e.reads)[j], e.verified_at),
        decreases e.reads@.len() - i,
    {
        if !is_unchanged(inputs, &e.reads[i], e.verified_at) {
            assert(!unchanged_since(*inputs, deps_view(e.reads)[i as int], e.verified_at));
            return false;
        }
        i += 1;
    }
    true
}

} // verus!
