//! A small map keyed by strings, kept as a list without repeated keys.
//! It backs the process-wide tables, whose keys are resource ids.

use vstd::prelude::*;
use crate::text::same_text;

verus! {

/// One key with its value.
pub struct Keyed<V> {
    key: String,
    value: V,
}

/// A map from strings to values of type `V`.
pub struct StringMap<V> {
    entries: Vec<Keyed<V>>,
}

impl<V> View for StringMap<V> {
    type V = Map<Seq<char>, V>;

    closed spec fn view(&self) -> Map<Seq<char>, V> {
        Map::new(
            |key: Seq<char>| exists|i: int| self.has_at(key, i),
            |key: Seq<char>| self.entries@[choose|i: int| self.has_at(key, i)].value,
        )
    }
}

impl<V> StringMap<V> {
    /// Whether the entry at position `i` is that of `key`.
    pub closed spec fn has_at(&self, key: Seq<char>, i: int) -> bool {
        0 <= i < self.entries@.len() && self.entries@[i].key@ == key
    }

    /// No key has two entries.
    pub closed spec fn wf(&self) -> bool {
        forall|i: int, j: int|
            0 <= i < j < self.entries@.len() ==> self.entries@[i].key@ != self.entries@[j].key@
    }

    proof fn lemma_view_at(&self, i: int)
        requires
            self.wf(),
            0 <= i < self.entries@.len(),
        ensures
            self@.contains_key(self.entries@[i].key@),
            self@[self.entries@[i].key@] == self.entries@[i].value,
    {
        let key = self.entries@[i].key@;
        assert(self.has_at(key, i));
        let k = choose|k: int| self.has_at(key, k);
        assert(k == i);
    }

    /// An empty map.
    pub fn new() -> (map: Self)
        ensures
            map.wf(),
            map@ == Map::<Seq<char>, V>::empty(),
    {
        let map = StringMap { entries: Vec::new() };
        assert(map@ =~= Map::<Seq<char>, V>::empty());
        map
    }

    fn position(&self, key: &str) -> (found: Option<usize>)
        requires
            self.wf(),
        ensures
            match found {
                Some(i) => self.has_at(key@, i as int) && self@.contains_key(key@) && self@[key@]
                    == self.entries@[i as int].value,
                None => !self@.contains_key(key@),
            },
    {
        let mut i: usize = 0;
        while i < self.entries.len()
            invariant
                self.wf(),
                i <= self.entries@.len(),
                forall|k: int| 0 <= k < i ==> !self.has_at(key@, k),
            decreases self.entries@.len() - i,
        {
            if same_text(self.entries[i].key.as_str(), key) {
                proof {
                    self.lemma_view_at(i as int);
                }
                return Some(i);
            }
            i += 1;
        }
        None
    }

    /// The value of `key`, if the map has one.
    pub fn get(&self, key: &str) -> (found: Option<&V>)
        requires
            self.wf(),
        ensures
            match found {
                Some(value) => self@.contains_key(key@) && *value == self@[key@],
                None => !self@.contains_key(key@),
            },
    {
        match self.position(key) {
            Some(i) => Some(&self.entries[i].value),
            None => None,
        }
    }

    /// The map after the entry at `pos` was set to `key` and `value`:
    /// in place of the entry that `key` had, or behind the last entry
    /// where it had none.
    proof fn lemma_entry_set(&self, before: Self, key: Seq<char>, value: V, pos: int)
        requires
            before.wf(),
            0 <= pos <= before.entries@.len(),
            self.entries@.len() == if pos == before.entries@.len() {
                pos + 1
            } else {
                before.entries@.len() as int
            },
            self.entries@[pos].key@ == key,
            self.entries@[pos].value == value,
            forall|k: int|
                0 <= k < before.entries@.len() && k != pos ==> self.entries@[k]
                    == before.entries@[k],
            pos < before.entries@.len() ==> before.entries@[pos].key@ == key,
            pos == before.entries@.len() ==> !before@.contains_key(key),
        ensures
            self.wf(),
            self@ == before@.insert(key, value),
    {
        let n = before.entries@.len() as int;
        assert forall|k: int| 0 <= k < n && k != pos implies before.entries@[k].key@ != key by {
            if before.entries@[k].key@ == key {
                assert(before.has_at(key, k));
            }
        }
        assert(self.wf());
        assert(self.has_at(key, pos));
        assert forall|k: Seq<char>| #[trigger]
            self@.contains_key(k) == before@.insert(key, value).contains_key(k) by {
            if self@.contains_key(k) {
                let p = choose|p: int| self.has_at(k, p);
                if p != pos {
                    assert(before.has_at(k, p));
                }
            }
            if before@.contains_key(k) {
                let p = choose|p: int| before.has_at(k, p);
                assert(self.has_at(k, p));
            }
        }
        assert forall|k: Seq<char>| #[trigger] self@.contains_key(k) implies self@[k]
            == before@.insert(key, value)[k] by {
            let p = choose|p: int| self.has_at(k, p);
            self.lemma_view_at(p);
            if p != pos {
                assert(before.has_at(k, p));
                before.lemma_view_at(p);
            }
        }
        assert(self@ =~= before@.insert(key, value));
    }

    /// Sets the value of `key`, replacing the one it had. Keys keep their
    /// positions, and a new key goes behind the last.
    pub fn insert(&mut self, key: &str, value: V)
        requires
            old(self).wf(),
        ensures
            final(self).wf(),
            final(self)@ == old(self)@.insert(key@, value),
    {
        let found = self.position(key);
        let ghost before = *self;
        match found {
            Some(i) => {
                let entry = Keyed { key: self.entries[i].key.clone(), value };
                self.entries.set(i, entry);
                proof {
                    self.lemma_entry_set(before, key@, value, i as int);
                }
            },
            None => {
                let entry = Keyed { key: key.to_owned(), value };
                self.entries.push(entry);
                proof {
                    self.lemma_entry_set(before, key@, value, before.entries@.len() as int);
                }
            },
        }
    }

    /// The number of entries.
    pub closed spec fn count(&self) -> nat {
        self.entries@.len()
    }

    /// The key at position `i`, in the order of first insertion.
    pub closed spec fn key_at(&self, i: int) -> Seq<char> {
        self.entries@[i].key@
    }

    /// The keys by position are exactly the keys of the map, each once.
    pub proof fn lemma_keys(&self)
        requires
            self.wf(),
        ensures
            forall|i: int|
                0 <= i < self.count() ==> self@.contains_key(#[trigger] self.key_at(i)),
            forall|key: Seq<char>|
                self@.contains_key(key) ==> exists|i: int|
                    0 <= i < self.count() && #[trigger] self.key_at(i) == key,
            forall|i: int, j: int|
                0 <= i < j < self.count() ==> self.key_at(i) != self.key_at(j),
    {
        assert forall|i: int| 0 <= i < self.count() implies self@.contains_key(
            #[trigger] self.key_at(i),
        ) by {
            assert(self.has_at(self.key_at(i), i));
        }
        assert forall|key: Seq<char>| self@.contains_key(key) implies exists|i: int|
            0 <= i < self.count() && #[trigger] self.key_at(i) == key by {
            let i = choose|i: int| self.has_at(key, i);
            assert(self.key_at(i) == key);
        }
    }

    /// The number of entries.
    pub fn len(&self) -> (n: usize)
        ensures
            n == self.count(),
    {
        self.entries.len()
    }

    /// The key and value at position `i`.
    pub fn entry(&self, i: usize) -> (pair: (&String, &V))
        requires
            self.wf(),
            i < self.count(),
        ensures
            pair.0@ == self.key_at(i as int),
            self@.contains_key(self.key_at(i as int)),
            *pair.1 == self@[self.key_at(i as int)],
    {
        proof {
            self.lemma_view_at(i as int);
        }
        (&self.entries[i].key, &self.entries[i].value)
    }
}

} // verus!
