//! A map from text keys to values, kept as a vector of distinct keys.
use vstd::prelude::*;
use crate::text::{chars_of, chars_equal};

verus! {

/// A finite map from strings to values. Each key occurs once; the mathematical
/// value of the map is `self@`, a `Map` from key characters to values.
pub struct StringMap<V> {
    entries: Vec<(String, V)>,
    contents: Ghost<Map<Seq<char>, V>>,
}

/// Every entry is in the map with its value, every key of the map has an
/// entry, and no key has two entries.
pub open spec fn parts_match<V>(entries: Seq<(String, V)>, contents: Map<Seq<char>, V>) -> bool {
    &&& forall|i: int|
        #![trigger entries[i].0@]
        0 <= i < entries.len() ==> contents.contains_key(entries[i].0@) && contents[entries[i].0@]
            == entries[i].1
    &&& forall|k: Seq<char>|
        #![trigger contents.contains_key(k)]
        contents.contains_key(k) ==> exists|i: int| 0 <= i < entries.len() && #[trigger] entries[i].0@ == k
    &&& forall|i: int, j: int|
        0 <= i < entries.len() && 0 <= j < entries.len() && i != j ==> #[trigger] entries[i].0@
            != #[trigger] entries[j].0@
}

impl<V> StringMap<V> {
    #[verifier::type_invariant]
    spec fn entries_match(self) -> bool {
        parts_match(self.entries@, self.contents@)
    }

    /// The contents of the map.
    pub closed spec fn view(&self) -> Map<Seq<char>, V> {
        self.contents@
    }

    /// An empty map.
    pub fn new() -> (m: Self)
        ensures
            m@ == Map::<Seq<char>, V>::empty(),
    {
        StringMap { entries: Vec::new(), contents: Ghost(Map::empty()) }
    }

    /// The number of keys.
    pub fn len(&self) -> (n: usize)
        ensures
            n == self@.dom().len(),
    {
        proof {
            use_type_invariant(self);
            self.lemma_dom_len();
        }
        self.entries.len()
    }

    proof fn lemma_dom_len(&self)
        requires
            parts_match(self.entries@, self.contents@),
        ensures
            self.contents@.dom().len() == self.entries@.len(),
            self.contents@.dom().finite(),
    {
        let keys = self.entries@.map_values(|e: (String, V)| e.0@);
        assert(keys.no_duplicates()) by {
            assert forall|i: int, j: int| 0 <= i < keys.len() && 0 <= j < keys.len() && i != j
                implies keys[i] != keys[j] by {
                assert(self.entries@[i].0@ != self.entries@[j].0@);
            }
        }
        assert(keys.to_set() =~= self.contents@.dom()) by {
            assert forall|k: Seq<char>| keys.to_set().contains(k) implies self.contents@.dom().contains(k) by {
                let i = choose|i: int| 0 <= i < keys.len() && keys[i] == k;
                assert(self.entries@[i].0@ == k);
            }
            assert forall|k: Seq<char>| self.contents@.dom().contains(k) implies keys.to_set().contains(k) by {
                assert(self.contents@.contains_key(k));
                let i = choose|i: int| 0 <= i < self.entries@.len() && #[trigger] self.entries@[i].0@ == k;
                assert(keys[i] == k);
            }
        }
        keys.unique_seq_to_set();
    }

    fn index_of(&self, key: &str) -> (r: Option<usize>)
        ensures
            match r {
                Some(i) => i < self.entries@.len() && self.entries@[i as int].0@ == key@,
                None => forall|i: int| 0 <= i < self.entries@.len() ==> #[trigger] self.entries@[i].0@ != key@,
            },
    {
        let key_chars = chars_of(key);
        let mut i: usize = 0;
        while i < self.entries.len()
            invariant
                i <= self.entries@.len(),
                key_chars@ == key@,
                forall|j: int| 0 <= j < i ==> #[trigger] self.entries@[j].0@ != key@,
            decreases self.entries@.len() - i,
        {
            let entry_chars = chars_of(self.entries[i].0.as_str());
            if chars_equal(entry_chars.as_slice(), key_chars.as_slice()) {
                return Some(i);
            }
            i = i + 1;
        }
        None
    }

    /// Whether the key is present.
    pub fn contains_key(&self, key: &str) -> (r: bool)
        ensures
            r == self@.contains_key(key@),
    {
        proof {
            use_type_invariant(self);
        }
        match self.index_of(key) {
            Some(i) => true,
            None => {
                proof {
                    if self.contents@.contains_key(key@) {
                        let i = choose|i: int| 0 <= i < self.entries@.len() && #[trigger] self.entries@[i].0@ == key@;
                    }
                }
                false
            },
        }
    }

    /// The value stored under the key.
    pub fn get(&self, key: &str) -> (r: Option<&V>)
        ensures
            match r {
                Some(v) => self@.contains_key(key@) && self@[key@] == *v,
                None => !self@.contains_key(key@),
            },
    {
        proof {
            use_type_invariant(self);
        }
        match self.index_of(key) {
            Some(i) => Some(&self.entries[i].1),
            None => {
                proof {
                    if self.contents@.contains_key(key@) {
                        let i = choose|i: int| 0 <= i < self.entries@.len() && #[trigger] self.entries@[i].0@ == key@;
                    }
                }
                None
            },
        }
    }

    fn take(&mut self) -> (r: (Vec<(String, V)>, Ghost<Map<Seq<char>, V>>))
        ensures
            r.0@ == old(self).entries@,
            r.1@ == old(self)@,
            parts_match(r.0@, r.1@),
    {
        proof {
            use_type_invariant(&*self);
        }
        let mut taken = StringMap::new();
        std::mem::swap(self, &mut taken);
        proof {
            use_type_invariant(&taken);
        }
        let StringMap { entries, contents } = taken;
        (entries, contents)
    }

    /// Stores `value` under `key`, replacing any earlier value.
    pub fn insert(&mut self, key: String, value: V)
        ensures
            final(self)@ == old(self)@.insert(key@, value),
    {
        let found = self.index_of(key.as_str());
        let (mut entries, contents) = self.take();
        let ghost old_entries = entries@;
        let ghost new_contents = contents@.insert(key@, value);
        match found {
            Some(i) => {
                entries.set(i, (key, value));
                proof {
                    assert forall|j: int| 0 <= j < entries@.len() implies new_contents.contains_key(
                        #[trigger] entries@[j].0@) && new_contents[entries@[j].0@] == entries@[j].1 by {
                        if j != i {
                            assert(old_entries[j].0@ != old_entries[i as int].0@);
                            assert(entries@[j] == old_entries[j]);
                        }
                    }
                    assert forall|k: Seq<char>| #[trigger] new_contents.contains_key(k) implies exists|j: int|
                        0 <= j < entries@.len() && #[trigger] entries@[j].0@ == k by {
                        if k == entries@[i as int].0@ {
                        } else {
                            assert(contents@.contains_key(k));
                            let j = choose|j: int| 0 <= j < old_entries.len() && #[trigger] old_entries[j].0@ == k;
                            assert(entries@[j].0@ == k);
                        }
                    }
                    assert forall|a: int, b: int|
                        0 <= a < entries@.len() && 0 <= b < entries@.len() && a != b
                        implies #[trigger] entries@[a].0@ != #[trigger] entries@[b].0@ by {
                        assert(old_entries[a].0@ != old_entries[b].0@);
                    }
                }
            },
            None => {
                entries.push((key, value));
                proof {
                    assert forall|j: int| 0 <= j < entries@.len() implies new_contents.contains_key(
                        #[trigger] entries@[j].0@) && new_contents[entries@[j].0@] == entries@[j].1 by {
                        if j < old_entries.len() {
                            assert(entries@[j] == old_entries[j]);
                            assert(old_entries[j].0@ != key@);
                        }
                    }
                    assert forall|k: Seq<char>| #[trigger] new_contents.contains_key(k) implies exists|j: int|
                        0 <= j < entries@.len() && #[trigger] entries@[j].0@ == k by {
                        if k == key@ {
                            assert(entries@[old_entries.len() as int].0@ == k);
                        } else {
                            assert(contents@.contains_key(k));
                            let j = choose|j: int| 0 <= j < old_entries.len() && #[trigger] old_entries[j].0@ == k;
                            assert(entries@[j].0@ == k);
                        }
                    }
                    assert forall|a: int, b: int|
                        0 <= a < entries@.len() && 0 <= b < entries@.len() && a != b
                        implies #[trigger] entries@[a].0@ != #[trigger] entries@[b].0@ by {
                        if a < old_entries.len() && b < old_entries.len() {
                            assert(old_entries[a].0@ != old_entries[b].0@);
                        } else if a < old_entries.len() {
                            assert(old_entries[a].0@ != key@);
                        } else {
                            assert(old_entries[b].0@ != key@);
                        }
                    }
                }
            },
        }
        assert(parts_match(entries@, new_contents));
        *self = StringMap { entries, contents: Ghost(new_contents) };
    }

    /// Removes the key and its value, if present.
    pub fn remove(&mut self, key: &str)
        ensures
            final(self)@ == old(self)@.remove(key@),
    {
        let found = self.index_of(key);
        let (mut entries, contents) = self.take();
        let ghost old_entries = entries@;
        let ghost new_contents = contents@.remove(key@);
        match found {
            Some(i) => {
                entries.remove(i);
                proof {
                    assert forall|j: int| 0 <= j < entries@.len() implies new_contents.contains_key(
                        #[trigger] entries@[j].0@) && new_contents[entries@[j].0@] == entries@[j].1 by {
                        if j < i {
                            assert(old_entries[j] == entries@[j]);
                            assert(old_entries[j].0@ != old_entries[i as int].0@);
                        } else {
                            assert(old_entries[j + 1] == entries@[j]);
                            assert(old_entries[j + 1].0@ != old_entries[i as int].0@);
                        }
                    }
                    assert forall|k: Seq<char>| #[trigger] new_contents.contains_key(k) implies exists|j: int|
                        0 <= j < entries@.len() && #[trigger] entries@[j].0@ == k by {
                        assert(contents@.contains_key(k));
                        let j = choose|j: int| 0 <= j < old_entries.len() && #[trigger] old_entries[j].0@ == k;
                        if j < i {
                            assert(entries@[j].0@ == k);
                        } else {
                            assert(j != i);
                            assert(entries@[j - 1].0@ == k);
                        }
                    }
                    assert forall|a: int, b: int|
                        0 <= a < entries@.len() && 0 <= b < entries@.len() && a != b
                        implies #[trigger] entries@[a].0@ != #[trigger] entries@[b].0@ by {
                        let a2 = if a < i { a } else { a + 1 };
                        let b2 = if b < i { b } else { b + 1 };
                        assert(old_entries[a2].0@ != old_entries[b2].0@);
                    }
                }
            },
            None => {
                proof {
                    assert(!contents@.contains_key(key@)) by {
                        if contents@.contains_key(key@) {
                            let j = choose|j: int| 0 <= j < old_entries.len() && #[trigger] old_entries[j].0@ == key@;
                        }
                    }
                    assert(new_contents =~= contents@);
                }
            },
        }
        assert(parts_match(entries@, new_contents));
        *self = StringMap { entries, contents: Ghost(new_contents) };
    }

    /// The keys of the map, in storage order, each once.
    pub fn keys(&self) -> (r: Vec<String>)
        ensures
            r@.len() == self@.dom().len(),
            forall|k: Seq<char>| self@.contains_key(k) <==> exists|i: int| 0 <= i < r@.len() && #[trigger] r@[i]@ == k,
    {
        proof {
            use_type_invariant(self);
            self.lemma_dom_len();
        }
        let mut r: Vec<String> = Vec::new();
        let mut i: usize = 0;
        while i < self.entries.len()
            invariant
                i <= self.entries@.len(),
                r@.len() == i,
                forall|j: int| 0 <= j < i ==> #[trigger] r@[j]@ == self.entries@[j].0@,
            decreases self.entries@.len() - i,
        {
            r.push(self.entries[i].0.clone());
            i = i + 1;
        }
        proof {
            assert forall|k: Seq<char>| self@.contains_key(k) implies exists|i: int| 0 <= i < r@.len() && #[trigger] r@[i]@ == k by {
                assert(self.contents@.contains_key(k));
                let j = choose|j: int| 0 <= j < self.entries@.len() && #[trigger] self.entries@[j].0@ == k;
                assert(r@[j]@ == k);
            }
            assert forall|k: Seq<char>| (exists|i: int| 0 <= i < r@.len() && #[trigger] r@[i]@ == k) implies self@.contains_key(k) by {
                let j = choose|j: int| 0 <= j < r@.len() && #[trigger] r@[j]@ == k;
                assert(self.entries@[j].0@ == k);
            }
        }
        r
    }
}

} // verus!
