//! A small map keyed by address, backed by a vector of entries in which no
//! address occurs twice.

use crate::address::Address;
use vstd::prelude::*;

verus! {

/// A finite map from addresses to values.
pub struct AddressMap<V> {
    entries: Vec<(Address, V)>,
}

/// No key occurs at two places of `entries`.
pub open spec fn distinct_keys<V>(entries: Seq<(Address, V)>) -> bool {
    forall|i: int, j: int|
        0 <= i < entries.len() && 0 <= j < entries.len() && i != j ==> entries[i].0 != entries[j].0
}

/// `key` occurs in `entries`.
pub open spec fn has_key<V>(entries: Seq<(Address, V)>, key: Address) -> bool {
    exists|i: int| 0 <= i < entries.len() && (#[trigger] entries[i]).0 == key
}

/// A place at which `key` occurs in `entries`.
pub open spec fn place_of<V>(entries: Seq<(Address, V)>, key: Address) -> int {
    choose|i: int| 0 <= i < entries.len() && (#[trigger] entries[i]).0 == key
}

/// The map that `entries` stand for.
pub open spec fn as_map<V>(entries: Seq<(Address, V)>) -> Map<Address, V> {
    Map::new(|key: Address| has_key(entries, key), |key: Address| entries[place_of(entries, key)].1)
}

proof fn lemma_entry<V>(entries: Seq<(Address, V)>, i: int)
    requires
        distinct_keys(entries),
        0 <= i < entries.len(),
    ensures
        has_key(entries, entries[i].0),
        place_of(entries, entries[i].0) == i,
        as_map(entries).contains_key(entries[i].0),
        as_map(entries)[entries[i].0] == entries[i].1,
{
    let key = entries[i].0;
    assert(entries[i].0 == key);
    let p = place_of(entries, key);
    assert(0 <= p < entries.len() && entries[p].0 == key);
}

impl<V> AddressMap<V> {
    #[verifier::type_invariant]
    spec fn keys_are_distinct(&self) -> bool {
        distinct_keys(self.entries@)
    }

    /// The map this value stands for.
    pub closed spec fn view(&self) -> Map<Address, V> {
        as_map(self.entries@)
    }

    /// The number of keys.
    pub closed spec fn count(&self) -> nat {
        self.entries@.len()
    }

    /// The empty map.
    pub fn new() -> (map: Self)
        ensures
            map@ == Map::<Address, V>::empty(),
            map.count() == 0,
    {
        let map = AddressMap { entries: Vec::new() };
        assert(map@ =~= Map::<Address, V>::empty());
        map
    }

    /// Where `key` is stored, if it is.
    fn find(&self, key: &Address) -> (place: Option<usize>)
        ensures
            match place {
                Some(i) => i < self.entries@.len() && self.entries@[i as int].0 == *key,
                None => !has_key(self.entries@, *key),
            },
    {
        let mut i: usize = 0;
        while i < self.entries.len()
            invariant
                i <= self.entries@.len(),
                forall|j: int| 0 <= j < i ==> (#[trigger] self.entries@[j]).0 != *key,
            decreases self.entries@.len() - i,
        {
            if self.entries[i].0 == *key {
                return Some(i);
            }
            i += 1;
        }
        None
    }

    /// The value stored under `key`, if any.
    pub fn get(&self, key: &Address) -> (value: Option<&V>)
        ensures
            match value {
                Some(v) => self@.contains_key(*key) && *v == self@[*key],
                None => !self@.contains_key(*key),
            },
    {
        proof {
            use_type_invariant(self);
        }
        match self.find(key) {
            Some(i) => {
                proof {
                    lemma_entry(self.entries@, i as int);
                }
                Some(&self.entries[i].1)
            },
            None => None,
        }
    }

    /// Stores `value` under `key`, in place of what was there.
    pub fn put(&mut self, key: Address, value: V)
        ensures
            final(self)@ == old(self)@.insert(key, value),
    {
        proof {
            use_type_invariant(&*self);
        }
        let ghost before = self.entries@;
        match self.find(&key) {
            Some(i) => {
                let mut entries: Vec<(Address, V)> = Vec::new();
                core::mem::swap(&mut self.entries, &mut entries);
                entries[i] = (key, value);
                let ghost after = entries@;
                assert(distinct_keys(after));
                assert forall|k: Address| has_key(after, k) == (has_key(before, k) || k == key) by {
                    if has_key(before, k) {
                        let p = place_of(before, k);
                        assert(after[p].0 == k);
                    }
                    if k == key {
                        assert(after[i as int].0 == k);
                    }
                    if has_key(after, k) {
                        let p = place_of(after, k);
                        assert(before[p].0 == k);
                    }
                }
                assert forall|k: Address| has_key(after, k) implies as_map(after)[k] == (if k
                    == key {
                    value
                } else {
                    as_map(before)[k]
                }) by {
                    let p = place_of(after, k);
                    lemma_entry(after, p);
                    lemma_entry(before, p);
                }
                core::mem::swap(&mut self.entries, &mut entries);
            },
            None => {
                let mut entries: Vec<(Address, V)> = Vec::new();
                core::mem::swap(&mut self.entries, &mut entries);
                entries.push((key, value));
                let ghost after = entries@;
                assert(distinct_keys(after)) by {
                    assert forall|i: int, j: int|
                        0 <= i < after.len() && 0 <= j < after.len() && i != j implies after[i].0
                        != after[j].0 by {
                        if i < before.len() {
                            assert(before[i].0 == after[i].0);
                        }
                        if j < before.len() {
                            assert(before[j].0 == after[j].0);
                        }
                    }
                }
                assert forall|k: Address| has_key(after, k) == (has_key(before, k) || k == key) by {
                    if has_key(before, k) {
                        let p = place_of(before, k);
                        assert(after[p].0 == k);
                    }
                    if k == key {
                        assert(after[before.len() as int].0 == k);
                    }
                    if has_key(after, k) {
                        let p = place_of(after, k);
                        if p < before.len() {
                            assert(before[p].0 == k);
                        }
                    }
                }
                assert forall|k: Address| has_key(after, k) implies as_map(after)[k] == (if k
                    == key {
                    value
                } else {
                    as_map(before)[k]
                }) by {
                    let p = place_of(after, k);
                    lemma_entry(after, p);
                    if p < before.len() {
                        lemma_entry(before, p);
                    }
                }
                core::mem::swap(&mut self.entries, &mut entries);
            },
        }
        assert(self@ =~= old(self)@.insert(key, value));
    }

    /// Takes one entry out of the map, if it holds any.
    pub(crate) fn take_any(&mut self) -> (entry: Option<(Address, V)>)
        ensures
            match entry {
                Some((key, value)) => {
                    &&& old(self)@.contains_key(key)
                    &&& old(self)@[key] == value
                    &&& final(self)@ == old(self)@.remove(key)
                    &&& final(self).count() + 1 == old(self).count()
                },
                None => {
                    &&& old(self)@ == Map::<Address, V>::empty()
                    &&& final(self)@ == old(self)@
                    &&& old(self).count() == 0
                },
            },
    {
        proof {
            use_type_invariant(&*self);
        }
        let ghost before = self.entries@;
        let mut entries: Vec<(Address, V)> = Vec::new();
        core::mem::swap(&mut self.entries, &mut entries);
        match entries.pop() {
            Some((key, value)) => {
                let ghost after = entries@;
                let ghost last = before.len() - 1;
                proof {
                    lemma_entry(before, last);
                    assert forall|i: int| 0 <= i < after.len() implies after[i] == before[i] by {}
                    assert(distinct_keys(after));
                    assert forall|k: Address| has_key(after, k) == (has_key(before, k) && k
                        != key) by {
                        if has_key(after, k) {
                            let p = place_of(after, k);
                            assert(before[p].0 == k);
                        }
                        if has_key(before, k) && k != key {
                            let p = place_of(before, k);
                            assert(after[p].0 == k);
                        }
                    }
                    assert forall|k: Address| has_key(after, k) implies as_map(after)[k] == as_map(
                        before,
                    )[k] by {
                        let p = place_of(after, k);
                        lemma_entry(after, p);
                        lemma_entry(before, p);
                    }
                }
                core::mem::swap(&mut self.entries, &mut entries);
                assert(self@ =~= old(self)@.remove(key));
                Some((key, value))
            },
            None => {
                assert(self@ =~= Map::<Address, V>::empty());
                None
            },
        }
    }
}

} // verus!
