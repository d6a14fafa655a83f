//! A map keyed by text, kept as a list of entries with distinct keys.
use vstd::prelude::*;
use crate::text::same_text;

verus! {

/// A finite map from text keys to values.
pub struct StrMap<V> {
    entries: Vec<(String, V)>,
}

impl<V> StrMap<V> {
    #[verifier::type_invariant]
    spec fn keys_distinct(self) -> bool {
        forall|i: int, j: int|
            0 <= i < self.entries@.len() && 0 <= j < self.entries@.len() && i != j
                ==> (#[trigger] self.entries@[i]).0@ != (#[trigger] self.entries@[j]).0@
    }

    spec fn has_key_at(self, k: Seq<char>, i: int) -> bool {
        0 <= i < self.entries@.len() && self.entries@[i].0@ == k
    }

    /// The map that the entries stand for.
    pub closed spec fn view(self) -> Map<Seq<char>, V> {
        Map::new(
            |k: Seq<char>| exists|i: int| self.has_key_at(k, i),
            |k: Seq<char>| self.entries@[choose|i: int| self.has_key_at(k, i)].1,
        )
    }

    proof fn lemma_lookup(self, i: int)
        requires
            self.keys_distinct(),
            0 <= i < self.entries@.len(),
        ensures
            self.view().contains_key(self.entries@[i].0@),
            self.view()[self.entries@[i].0@] == self.entries@[i].1,
    {
        let k = self.entries@[i].0@;
        assert(self.has_key_at(k, i));
        let j = choose|j: int| self.has_key_at(k, j);
        assert(self.has_key_at(k, j));
        if j != i {
            assert(self.entries@[i].0@ != self.entries@[j].0@);
        }
    }

    /// The empty map.
    pub fn new() -> (m: Self)
        ensures
            m.view() == Map::<Seq<char>, V>::empty(),
    {
        let m = StrMap { entries: Vec::new() };
        assert(m.view() =~= Map::<Seq<char>, V>::empty());
        m
    }

    fn find(&self, key: &str) -> (r: Option<usize>)
        ensures
            match r {
                Some(i) => i < self.entries@.len() && self.entries@[i as int].0@ == key@,
                None => forall|i: int| 0 <= i < self.entries@.len() ==> self.entries@[i].0@ != key@,
            },
    {
        let mut i: usize = 0;
        while i < self.entries.len()
            invariant
                0 <= i <= self.entries@.len(),
                forall|j: int| 0 <= j < i ==> self.entries@[j].0@ != key@,
            decreases self.entries@.len() - i,
        {
            if same_text(self.entries[i].0.as_str(), key) {
                return Some(i);
            }
            i = i + 1;
        }
        None
    }

    /// The value stored under `key`, if any.
    pub fn get(&self, key: &str) -> (r: Option<&V>)
        ensures
            r is Some <==> self.view().contains_key(key@),
            r matches Some(v) ==> *v == self.view()[key@],
    {
        proof { use_type_invariant(self); }
        match self.find(key) {
            Some(i) => {
                proof { self.lemma_lookup(i as int); }
                Some(&self.entries[i].1)
            },
            None => {
                assert(!self.view().contains_key(key@)) by {
                    if self.view().contains_key(key@) {
                        let j = choose|j: int| self.has_key_at(key@, j);
                    }
                }
                None
            },
        }
    }

    /// Stores `value` under `key`, replacing what was there.
    pub fn insert(&mut self, key: String, value: V)
        ensures
            final(self).view() == old(self).view().insert(key@, value),
    {
        proof { use_type_invariant(&*self); }
        let ghost old_entries = self.entries@;
        let ghost old_map = self.view();
        let ghost new_map = old_map.insert(key@, value);
        let found = self.find(key.as_str());
        let ghost idx: int = match found {
            Some(i) => i as int,
            None => old_entries.len() as int,
        };
        let mut entries = Vec::new();
        std::mem::swap(&mut entries, &mut self.entries);
        match found {
            Some(i) => {
                entries.set(i, (key, value));
            },
            None => {
                entries.push((key, value));
            },
        }
        self.entries = entries;
        proof { use_type_invariant(&*self); }
        assert(self.view() =~= new_map) by {
            assert forall|k: Seq<char>| self.view().contains_key(k) <==> new_map.contains_key(k) by {
                if self.view().contains_key(k) {
                    let j = choose|j: int| self.has_key_at(k, j);
                    if k != key@ {
                        assert(old_entries[j].0@ == k);
                        assert(self.has_key_at(k, j));
                        let s = old(self);
                        assert(s.has_key_at(k, j));
                    }
                }
                if new_map.contains_key(k) && k != key@ {
                    let s = old(self);
                    let j = choose|j: int| s.has_key_at(k, j);
                    assert(self.entries@[j] == old_entries[j]);
                    assert(self.has_key_at(k, j));
                }
                if k == key@ {
                    assert(self.has_key_at(k, idx));
                }
            }
            assert forall|k: Seq<char>| #[trigger] self.view().contains_key(k) implies self.view()[k] == new_map[k] by {
                let j = choose|j: int| self.has_key_at(k, j);
                self.lemma_lookup(j);
                if k != key@ {
                    let s = old(self);
                    assert(s.entries@[j] == self.entries@[j]);
                    s.lemma_lookup(j);
                }
            }
        }
    }

    /// The entries of the map, each key once.
    pub fn pairs(&self) -> (r: &Vec<(String, V)>)
        ensures
            forall|i: int| 0 <= i < r@.len() ==> self.view().contains_key((#[trigger] r@[i]).0@)
                && self.view()[r@[i].0@] == r@[i].1,
            forall|k: Seq<char>| self.view().contains_key(k) ==> exists|i: int|
                0 <= i < r@.len() && (#[trigger] r@[i]).0@ == k,
            forall|i: int, j: int| 0 <= i < r@.len() && 0 <= j < r@.len() && i != j
                ==> (#[trigger] r@[i]).0@ != (#[trigger] r@[j]).0@,
    {
        proof {
            use_type_invariant(self);
            assert forall|i: int| 0 <= i < self.entries@.len() implies self.view().contains_key((#[trigger] self.entries@[i]).0@)
                && self.view()[self.entries@[i].0@] == self.entries@[i].1 by {
                self.lemma_lookup(i);
            }
            assert forall|k: Seq<char>| self.view().contains_key(k) implies exists|i: int|
                0 <= i < self.entries@.len() && (#[trigger] self.entries@[i]).0@ == k by {
                let j = choose|j: int| self.has_key_at(k, j);
                assert(self.entries@[j].0@ == k);
            }
        }
        &self.entries
    }
}

} // verus!
