use vstd::prelude::*;

use crate::address::{lemma_key_eq, Key};
use crate::records::Record;

verus! {

/// The records of the registry, each at its address, as the host ledger keeps
/// them for the program `program_id`.
pub struct Registry {
    program_id: Key,
    entries: Vec<(Key, Record)>,
}

impl View for Registry {
    type V = Map<Seq<u8>, Record>;

    /// The record at each occupied address.
    closed spec fn view(&self) -> Map<Seq<u8>, Record> {
        Map::new(
            |k: Seq<u8>| exists|i: int| 0 <= i < self.entries@.len() && self.entries@[i].0@ == k,
            |k: Seq<u8>|
                self.entries@[choose|i: int|
                    0 <= i < self.entries@.len() && self.entries@[i].0@ == k].1,
        )
    }
}

impl Registry {
    /// Well-formed: no address holds two records.
    pub closed spec fn wf(&self) -> bool {
        forall|i: int, j: int|
            0 <= i < j < self.entries@.len() ==> self.entries@[i].0@ != self.entries@[j].0@
    }

    /// The key of the program that owns the records.
    pub closed spec fn spec_program_id(&self) -> Key {
        self.program_id
    }

    /// The record at `address`, if any.
    pub open spec fn lookup(&self, address: Seq<u8>) -> Option<Record> {
        if self@.contains_key(address) {
            Some(self@[address])
        } else {
            None
        }
    }

    proof fn lemma_entry(&self, i: int)
        requires
            self.wf(),
            0 <= i < self.entries@.len(),
        ensures
            self@.contains_key(self.entries@[i].0@),
            self@[self.entries@[i].0@] == self.entries@[i].1,
    {
        let k = self.entries@[i].0@;
        assert(self@.contains_key(k));
        let j = choose|j: int| 0 <= j < self.entries@.len() && self.entries@[j].0@ == k;
        assert(j == i);
    }

    /// An empty registry for the program `program_id`.
    pub fn new(program_id: Key) -> (r: Registry)
        ensures
            r.wf(),
            r@ == Map::<Seq<u8>, Record>::empty(),
            r.spec_program_id() == program_id,
    {
        let r = Registry { program_id, entries: Vec::new() };
        assert(r@ =~= Map::<Seq<u8>, Record>::empty());
        r
    }

    /// The key of the program that owns the records.
    pub fn program_id(&self) -> (r: Key)
        ensures
            r == self.spec_program_id(),
    {
        self.program_id
    }

    fn find(&self, address: &Key) -> (r: Option<usize>)
        requires
            self.wf(),
        ensures
            match r {
                Some(i) => i < self.entries@.len() && self.entries@[i as int].0@ == address@
                    && self@.contains_key(address@) && self@[address@]
                    == self.entries@[i as int].1,
                None => !self@.contains_key(address@),
            },
    {
        let mut i: usize = 0;
        while i < self.entries.len()
            invariant
                self.wf(),
                i <= self.entries@.len(),
                forall|j: int| 0 <= j < i ==> self.entries@[j].0@ != address@,
            decreases self.entries@.len() - i,
        {
            let same = self.entries[i].0 == *address;
            proof {
                lemma_key_eq(self.entries@[i as int].0, *address);
            }
            if same {
                proof {
                    self.lemma_entry(i as int);
                }
                return Some(i);
            }
            i = i + 1;
        }
        None
    }

    /// The record at `address`, if any.
    pub fn get(&self, address: &Key) -> (r: Option<Record>)
        requires
            self.wf(),
        ensures
            r == self.lookup(address@),
    {
        match self.find(address) {
            Some(i) => Some(self.entries[i].1),
            None => None,
        }
    }

    /// Stores `record` at the free address `address`.
    pub(crate) fn insert_new(&mut self, address: Key, record: Record)
        requires
            old(self).wf(),
            !old(self)@.contains_key(address@),
        ensures
            final(self).wf(),
            final(self)@ == old(self)@.insert(address@, record),
            final(self).spec_program_id() == old(self).spec_program_id(),
    {
        let ghost before = self.entries@;
        assert forall|i: int| 0 <= i < before.len() implies before[i].0@ != address@ by {
            if before[i].0@ == address@ {
                assert(old(self)@.contains_key(address@));
            }
        }
        self.entries.push((address, record));
        let ghost after = self.entries@;
        let ghost expected = old(self)@.insert(address@, record);
        assert(self.wf());
        assert forall|k: Seq<u8>| #[trigger] self@.contains_key(k) == expected.contains_key(k) by {
            if expected.contains_key(k) && k != address@ {
                let i = choose|i: int| 0 <= i < before.len() && before[i].0@ == k;
                assert(after[i] == before[i]);
            }
            if self@.contains_key(k) && k != address@ {
                let i = choose|i: int| 0 <= i < after.len() && after[i].0@ == k;
                assert(i < before.len());
            }
            if k == address@ {
                assert(after[before.len() as int].0@ == k);
            }
        }
        assert forall|k: Seq<u8>| #[trigger] self@.contains_key(k) implies self@[k] == expected[k] by {
            let i = choose|i: int| 0 <= i < after.len() && after[i].0@ == k;
            self.lemma_entry(i);
            if k != address@ {
                assert(i < before.len());
                assert(after[i] == before[i]);
                old(self).lemma_entry(i);
            }
        }
        assert(self@ =~= expected);
    }

    /// Stores `record` in place of the one at the occupied address `address`.
    pub(crate) fn replace(&mut self, address: Key, record: Record)
        requires
            old(self).wf(),
            old(self)@.contains_key(address@),
        ensures
            final(self).wf(),
            final(self)@ == old(self)@.insert(address@, record),
            final(self).spec_program_id() == old(self).spec_program_id(),
    {
        let idx = self.find(&address);
        let i = idx.unwrap();
        let ghost before = self.entries@;
        self.entries.set(i, (address, record));
        let ghost after = self.entries@;
        let ghost expected = old(self)@.insert(address@, record);
        assert(self.wf());
        assert forall|k: Seq<u8>| #[trigger] self@.contains_key(k) == expected.contains_key(k) by {
            if expected.contains_key(k) {
                if k == address@ {
                    assert(after[i as int].0@ == k);
                } else {
                    let j = choose|j: int| 0 <= j < before.len() && before[j].0@ == k;
                    assert(after[j] == before[j]);
                }
            }
            if self@.contains_key(k) {
                let j = choose|j: int| 0 <= j < after.len() && after[j].0@ == k;
                if j != i {
                    assert(before[j] == after[j]);
                }
            }
        }
        assert forall|k: Seq<u8>| #[trigger] self@.contains_key(k) implies self@[k] == expected[k] by {
            let j = choose|j: int| 0 <= j < after.len() && after[j].0@ == k;
            self.lemma_entry(j);
            if k != address@ {
                assert(j != i);
                assert(after[j] == before[j]);
                old(self).lemma_entry(j);
            }
        }
        assert(self@ =~= expected);
    }

    /// Removes the record at the occupied address `address`.
    pub(crate) fn remove(&mut self, address: &Key)
        requires
            old(self).wf(),
            old(self)@.contains_key(address@),
        ensures
            final(self).wf(),
            final(self)@ == old(self)@.remove(address@),
            final(self).spec_program_id() == old(self).spec_program_id(),
    {
        let idx = self.find(address);
        let i = idx.unwrap();
        let ghost before = self.entries@;
        self.entries.remove(i);
        let ghost after = self.entries@;
        let ghost expected = old(self)@.remove(address@);
        assert forall|a: int, b: int| 0 <= a < b < after.len() implies after[a].0@ != after[b].0@ by {
            let a0 = if a < i { a } else { a + 1 };
            let b0 = if b < i { b } else { b + 1 };
            assert(after[a] == before[a0]);
            assert(after[b] == before[b0]);
        }
        assert(self.wf());
        assert forall|k: Seq<u8>| #[trigger] self@.contains_key(k) == expected.contains_key(k) by {
            if expected.contains_key(k) {
                let j = choose|j: int| 0 <= j < before.len() && before[j].0@ == k;
                assert(j != i);
                if j < i {
                    assert(after[j] == before[j]);
                } else {
                    assert(after[j - 1] == before[j]);
                }
            }
            if self@.contains_key(k) {
                let j = choose|j: int| 0 <= j < after.len() && after[j].0@ == k;
                let j0 = if j < i { j } else { j + 1 };
                assert(after[j] == before[j0]);
                assert(j0 != i);
            }
        }
        assert forall|k: Seq<u8>| #[trigger] self@.contains_key(k) implies self@[k] == expected[k] by {
            let j = choose|j: int| 0 <= j < after.len() && after[j].0@ == k;
            self.lemma_entry(j);
            let j0 = if j < i { j } else { j + 1 };
            assert(after[j] == before[j0]);
            old(self).lemma_entry(j0);
        }
        assert(self@ =~= expected);
    }
}

} // verus!
