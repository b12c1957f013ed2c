//! The input store: named texts and blobs that a driver sets, and the revision
//! counter that every set advances.

use vstd::prelude::*;
use crate::error::TaekoError;
use crate::table::Table;

verus! {

/// What every layer needs from the bottom of the pipeline: the raw inputs.
pub trait TaekoCoreDatabase {
    /// The invariant of the database.
    spec fn valid(&self) -> bool;

    /// The texts that were set, by name.
    spec fn texts(&self) -> Map<Seq<char>, Seq<char>>;

    /// The blobs that were set, by name.
    spec fn blobs(&self) -> Map<Seq<char>, Seq<u8>>;

    /// How often an input was set.
    spec fn revision(&self) -> nat;

    /// The current text of a name; `NotFound` where it was never set.
    fn text(&self, name: &String) -> (r: Result<&String, TaekoError>)
        requires
            self.valid(),
        ensures
            match r {
                Ok(v) => self.texts().contains_key(name@) && v@ == self.texts()[name@],
                Err(e) => e == TaekoError::NotFound && !self.texts().contains_key(name@),
            },
    ;

    /// The current blob of a name; `NotFound` where it was never set.
    fn blob(&self, name: &String) -> (r: Result<&Vec<u8>, TaekoError>)
        requires
            self.valid(),
        ensures
            match r {
                Ok(v) => self.blobs().contains_key(name@) && v@ == self.blobs()[name@],
                Err(e) => e == TaekoError::NotFound && !self.blobs().contains_key(name@),
            },
    ;

    /// Sets the text of a name and advances the revision.
    fn set_text(&mut self, name: String, value: String)
        requires
            old(self).valid(),
            old(self).revision() < u64::MAX,
        ensures
            final(self).valid(),
            final(self).texts() == old(self).texts().insert(name@, value@),
            final(self).blobs() == old(self).blobs(),
            final(self).revision() == old(self).revision() + 1,
    ;

    /// Sets the blob of a name and advances the revision.
    fn set_blob(&mut self, name: String, value: Vec<u8>)
        requires
            old(self).valid(),
            old(self).revision() < u64::MAX,
        ensures
            final(self).valid(),
            final(self).blobs() == old(self).blobs().insert(name@, value@),
            final(self).texts() == old(self).texts(),
            final(self).revision() == old(self).revision() + 1,
    ;
}

/// The texts of a table, by name.
pub open spec fn text_map(t: Table<String>) -> Map<Seq<char>, Seq<char>> {
    Map::new(|n: Seq<char>| t.has(n), |n: Seq<char>| t.slot(n).value@)
}

/// The blobs of a table, by name.
pub open spec fn blob_map(t: Table<Vec<u8>>) -> Map<Seq<char>, Seq<u8>> {
    Map::new(|n: Seq<char>| t.has(n), |n: Seq<char>| t.slot(n).value@)
}

/// Named texts and blobs, each stamped with the revision at which it was set.
pub struct InputStore {
    pub texts: Table<String>,
    pub blobs: Table<Vec<u8>>,
    pub revision: u64,
}

impl InputStore {
    /// No name twice, and no input is stamped later than the store's revision.
    pub open spec fn inv(&self) -> bool {
        &&& self.texts.wf()
        &&& self.blobs.wf()
        &&& forall|n: Seq<char>| #[trigger]
            self.texts.has(n) ==> self.texts.slot(n).changed_at <= self.revision
        &&& forall|n: Seq<char>| #[trigger]
            self.blobs.has(n) ==> self.blobs.slot(n).changed_at <= self.revision
    }

    /// An empty store at revision zero.
    pub fn new() -> (s: Self)
        ensures
            s.inv(),
            s.revision == 0,
            s.texts() == Map::<Seq<char>, Seq<char>>::empty(),
            s.blobs() == Map::<Seq<char>, Seq<u8>>::empty(),
    {
        let s = InputStore { texts: Table::new(), blobs: Table::new(), revision: 0 };
        assert(s.texts() =~= Map::<Seq<char>, Seq<char>>::empty());
        assert(s.blobs() =~= Map::<Seq<char>, Seq<u8>>::empty());
        s
    }

    /// The number of sets so far.
    pub fn current_revision(&self) -> (r: u64)
        ensures
            r == self.revision,
    {
        self.revision
    }
}

impl TaekoCoreDatabase for InputStore {
    open spec fn valid(&self) -> bool {
        self.inv()
    }

    open spec fn texts(&self) -> Map<Seq<char>, Seq<char>> {
        text_map(self.texts)
    }

    open spec fn blobs(&self) -> Map<Seq<char>, Seq<u8>> {
        blob_map(self.blobs)
    }

    open spec fn revision(&self) -> nat {
        self.revision as nat
    }

    fn text(&self, name: &String) -> (r: Result<&String, TaekoError>) {
        match self.texts.get(name) {
            Some(s) => Ok(&s.value),
            None => Err(TaekoError::NotFound),
        }
    }

    fn blob(&self, name: &String) -> (r: Result<&Vec<u8>, TaekoError>) {
        match self.blobs.get(name) {
            Some(s) => Ok(&s.value),
            None => Err(TaekoError::NotFound),
        }
    }

    fn set_text(&mut self, name: String, value: String)
        ensures
            final(self).blobs == old(self).blobs,
            final(self).texts.has(name@),
            final(self).texts.slot(name@).changed_at == old(self).revision + 1,
            forall|other: Seq<char>|
                other != name@ ==> (#[trigger] final(self).texts.has(other)) == old(self).texts.has(other),
            forall|other: Seq<char>|
                other != name@ && old(self).texts.has(other) ==> (#[trigger] final(self).texts.slot(other)) == old(self).texts.slot(other),
    {
        let next: u64 = self.revision + 1;
        self.texts.put(&name, value, next, next);
        self.revision = next;
        assert(self.texts() =~= old(self).texts().insert(name@, value@));
    }

    fn set_blob(&mut self, name: String, value: Vec<u8>)
        ensures
            final(self).texts == old(self).texts,
    {
        let next: u64 = self.revision + 1;
        self.blobs.put(&name, value, next, next);
        self.revision = next;
        assert(self.blobs() =~= old(self).blobs().insert(name@, value@));
    }
}

} // verus!
