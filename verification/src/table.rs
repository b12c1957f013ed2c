//! A table of named, stamped values: the storage behind inputs and cached results.

use vstd::prelude::*;

verus! {

/// One named value with the revisions at which it last changed and was last
/// confirmed.
pub struct Slot<V> {
    pub name: String,
    pub value: V,
    pub changed_at: u64,
    pub verified_at: u64,
}

/// Named slots, no name twice.
pub struct Table<V> {
    pub slots: Vec<Slot<V>>,
}

impl<V> Table<V> {
    /// No two slots carry the same name.
    pub open spec fn wf(&self) -> bool {
        forall|i: int, j: int|
            0 <= i < j < self.slots@.len() ==> self.slots@[i].name@ != self.slots@[j].name@
    }

    /// Some slot carries `name`.
    pub open spec fn has(&self, name: Seq<char>) -> bool {
        exists|i: int| 0 <= i < self.slots@.len() && (#[trigger] self.slots@[i]).name@ == name
    }

    /// The position of the slot that carries `name`.
    pub open spec fn index_of(&self, name: Seq<char>) -> int {
        choose|i: int| 0 <= i < self.slots@.len() && (#[trigger] self.slots@[i]).name@ == name
    }

    /// The slot that carries `name`.
    pub open spec fn slot(&self, name: Seq<char>) -> Slot<V> {
        self.slots@[self.index_of(name)]
    }

    /// A slot found at position `k` is the slot of its name.
    pub proof fn lemma_slot_at(&self, k: int)
        requires
            self.wf(),
            0 <= k < self.slots@.len(),
        ensures
            self.has(self.slots@[k].name@),
            self.index_of(self.slots@[k].name@) == k,
            self.slot(self.slots@[k].name@) == self.slots@[k],
    {
        let name = self.slots@[k].name@;
        let c = self.index_of(name);
        assert(self.slots@[c].name@ == name);
    }

    /// A table without slots.
    pub fn new() -> (t: Self)
        ensures
            t.wf(),
            t.slots@.len() == 0,
            forall|name: Seq<char>| !t.has(name),
    {
        Table { slots: Vec::new() }
    }

    /// Looks a name up.
    pub fn find(&self, name: &String) -> (r: Option<usize>)
        requires
            self.wf(),
        ensures
            match r {
                Some(i) => self.has(name@) && i as int == self.index_of(name@) && i
                    < self.slots@.len(),
                None => !self.has(name@),
            },
    {
        let mut i: usize = 0;
        while i < self.slots.len()
            invariant
                self.wf(),
                i <= self.slots@.len(),
                forall|k: int| 0 <= k < i ==> (#[trigger] self.slots@[k]).name@ != name@,
            decreases self.slots@.len() - i,
        {
            if self.slots[i].name == *name {
                proof {
                    self.lemma_slot_at(i as int);
                }
                return Some(i);
            }
            i += 1;
        }
        None
    }

    /// The slot of a name, if the table has it.
    pub fn get(&self, name: &String) -> (r: Option<&Slot<V>>)
        requires
            self.wf(),
        ensures
            match r {
                Some(s) => self.has(name@) && *s == self.slot(name@),
                None => !self.has(name@),
            },
    {
        match self.find(name) {
            Some(i) => Some(&self.slots[i]),
            None => None,
        }
    }

    /// Stores a value under a name, in place of the one that stood there.
    pub fn put(&mut self, name: &String, value: V, changed_at: u64, verified_at: u64)
        requires
            old(self).wf(),
        ensures
            final(self).wf(),
            final(self).has(name@),
            final(self).slot(name@).name@ == name@,
            final(self).slot(name@).value == value,
            final(self).slot(name@).changed_at == changed_at,
            final(self).slot(name@).verified_at == verified_at,
            forall|other: Seq<char>|
                other != name@ ==> (#[trigger] final(self).has(other)) == old(self).has(other),
            forall|other: Seq<char>|
                other != name@ && old(self).has(other) ==> (#[trigger] final(self).slot(other))
                    == old(self).slot(other),
    {
        let found = self.find(name);
        let slot = Slot { name: name.clone(), value, changed_at, verified_at };
        let ghost before = *self;
        let k: usize = match found {
            Some(i) => {
                self.slots.set(i, slot);
                i
            },
            None => {
                self.slots.push(slot);
                self.slots.len() - 1
            },
        };
        proof {
            assert(self.slots@[k as int] == slot);
            assert(forall|j: int|
                0 <= j < before.slots@.len() && j != k ==> self.slots@[j] == before.slots@[j]);
            assert(self.wf());
            self.lemma_slot_at(k as int);
            assert forall|other: Seq<char>| other != name@ implies (#[trigger] self.has(other))
                == before.has(other) by {
                if before.has(other) {
                    let c = before.index_of(other);
                    assert(self.slots@[c].name@ == other);
                }
                if self.has(other) {
                    let c = self.index_of(other);
                    assert(before.slots@[c].name@ == other);
                }
            }
            assert forall|other: Seq<char>| other != name@ && before.has(other) implies (
            #[trigger] self.slot(other)) == before.slot(other) by {
                let c = before.index_of(other);
                assert(self.slots@[c] == before.slots@[c]);
                self.lemma_slot_at(c);
            }
        }
    }
}

} // verus!
