//! A finite map keyed by strings, kept as a list of entries with pairwise
//! distinct keys. Its view is the mathematical map from a key's characters to
//! the stored value.

use vstd::prelude::*;

verus! {

/// One key with the value stored under it.
#[derive(Debug)]
struct Entry<V> {
    key: String,
    value: V,
}

/// No two entries of `s` carry the same key.
spec fn distinct_keys<V>(s: Seq<Entry<V>>) -> bool {
    forall|i: int, j: int| 0 <= i < j < s.len() ==> (#[trigger] s[i]).key@ != (#[trigger] s[j]).key@
}

/// Some entry of `s` carries the key `k`.
spec fn has_key<V>(s: Seq<Entry<V>>, k: Seq<char>) -> bool {
    exists|i: int| 0 <= i < s.len() && (#[trigger] s[i]).key@ == k
}

/// The position of an entry of `s` that carries the key `k`.
spec fn slot_of<V>(s: Seq<Entry<V>>, k: Seq<char>) -> int {
    choose|i: int| 0 <= i < s.len() && (#[trigger] s[i]).key@ == k
}

/// The map that a list of entries stands for.
spec fn entries_map<V>(s: Seq<Entry<V>>) -> Map<Seq<char>, V> {
    Map::new(|k: Seq<char>| has_key(s, k), |k: Seq<char>| s[slot_of(s, k)].value)
}

/// A map from strings to values of type `V`.
#[derive(Debug)]
pub struct Table<V> {
    entries: Vec<Entry<V>>,
}

impl<V> View for Table<V> {
    type V = Map<Seq<char>, V>;

    closed spec fn view(&self) -> Map<Seq<char>, V> {
        entries_map(self.entries@)
    }
}

impl<V> Table<V> {
    #[verifier::type_invariant]
    spec fn well_formed(self) -> bool {
        distinct_keys(self.entries@)
    }

    /// The empty table.
    pub fn new() -> (t: Self)
        ensures
            t@ == Map::<Seq<char>, V>::empty(),
    {
        let t = Table { entries: Vec::new() };
        assert(t@ =~= Map::<Seq<char>, V>::empty());
        t
    }

    /// The position of the entry stored under `key`, if there is one.
    fn find(&self, key: &String) -> (r: Option<usize>)
        ensures
            match r {
                Some(i) => i < self.entries@.len() && self.entries@[i as int].key@ == key@,
                None => !has_key(self.entries@, key@),
            },
    {
        let mut i: usize = 0;
        while i < self.entries.len()
            invariant
                i <= self.entries@.len(),
                forall|j: int| 0 <= j < i ==> (#[trigger] self.entries@[j]).key@ != key@,
            decreases self.entries@.len() - i,
        {
            if self.entries[i].key == *key {
                return Some(i);
            }
            i = i + 1;
        }
        None
    }

    /// Whether a value is stored under `key`.
    pub fn contains_key(&self, key: &String) -> (r: bool)
        ensures
            r == self@.contains_key(key@),
    {
        self.find(key).is_some()
    }

    /// The value stored under `key`, if there is one.
    pub fn get(&self, key: &String) -> (r: Option<&V>)
        ensures
            r == (if self@.contains_key(key@) {
                Some(&self@[key@])
            } else {
                None
            }),
    {
        proof {
            use_type_invariant(self);
        }
        match self.find(key) {
            Some(i) => Some(&self.entries[i].value),
            None => None,
        }
    }

    /// Stores `value` under `key`, replacing what was stored there before.
    pub fn insert(&mut self, key: String, value: V)
        ensures
            final(self)@ == old(self)@.insert(key@, value),
    {
        proof {
            use_type_invariant(&*self);
        }
        let found = self.find(&key);
        let mut entries: Vec<Entry<V>> = Vec::new();
        std::mem::swap(&mut entries, &mut self.entries);
        let ghost before = entries@;
        let ghost k = key@;
        match found {
            Some(i) => {
                entries.set(i, Entry { key, value });
                proof {
                    let after = entries@;
                    assert forall|q: Seq<char>| has_key(after, q) <==> has_key(before, q) by {
                        if has_key(after, q) {
                            let j = slot_of(after, q);
                            assert(before[j].key@ == q);
                        }
                        if has_key(before, q) {
                            let j = slot_of(before, q);
                            assert(after[j].key@ == q);
                        }
                    }
                    assert(entries_map(after) =~= entries_map(before).insert(k, value));
                }
            },
            None => {
                entries.push(Entry { key, value });
                proof {
                    let after = entries@;
                    assert(after[before.len() as int].key@ == k);
                    assert forall|q: Seq<char>| has_key(after, q) <==> (has_key(before, q) || q
                        == k) by {
                        if has_key(after, q) && q != k {
                            let j = slot_of(after, q);
                            assert(before[j].key@ == q);
                        }
                        if has_key(before, q) {
                            let j = slot_of(before, q);
                            assert(after[j].key@ == q);
                        }
                    }
                    assert(entries_map(after) =~= entries_map(before).insert(k, value));
                }
            },
        }
        self.entries = entries;
    }

    /// Removes what is stored under `key`, if anything.
    pub fn remove(&mut self, key: &String)
        ensures
            final(self)@ == old(self)@.remove(key@),
    {
        proof {
            use_type_invariant(&*self);
        }
        let found = self.find(key);
        if let Some(i) = found {
            let mut entries: Vec<Entry<V>> = Vec::new();
            std::mem::swap(&mut entries, &mut self.entries);
            let ghost before = entries@;
            let ghost k = key@;
            let _gone = entries.swap_remove(i);
            proof {
                let after = entries@;
                let last = before.len() - 1;
                assert forall|a: int, b: int| 0 <= a < b < after.len() implies (#[trigger] after[a]).key@
                    != (#[trigger] after[b]).key@ by {
                    let a0 = if a == i { last } else { a };
                    let b0 = if b == i { last } else { b };
                    assert(after[a] == before[a0]);
                    assert(after[b] == before[b0]);
                }
                assert forall|q: Seq<char>| has_key(after, q) <==> (has_key(before, q) && q
                    != k) by {
                    if has_key(after, q) {
                        let j = slot_of(after, q);
                        let j0 = if j == i { last } else { j };
                        assert(before[j0].key@ == q);
                    }
                    if has_key(before, q) && q != k {
                        let j = slot_of(before, q);
                        let j1 = if j == last { i as int } else { j };
                        assert(after[j1].key@ == q);
                    }
                }
                assert forall|q: Seq<char>| has_key(after, q) implies after[slot_of(after, q)].value
                    == before[slot_of(before, q)].value by {
                    let j = slot_of(after, q);
                    let j0 = if j == i { last } else { j };
                    assert(before[j0].key@ == q);
                }
                assert(entries_map(after) =~= entries_map(before).remove(k));
            }
            self.entries = entries;
        } else {
            assert(self@ =~= old(self)@.remove(key@));
        }
    }
}

} // verus!
