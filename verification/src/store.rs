use crate::address::Address;
use vstd::prelude::*;

verus! {

/// What is kept at each of some addresses. No address occurs twice.
pub struct Store<T> {
    entries: Vec<(Address, T)>,
}

/// The first place at which `key` stands among the entries, if it stands there.
spec fn place_of<T>(entries: Seq<(Address, T)>, key: Seq<u8>) -> Option<int> {
    if exists|i: int| 0 <= i < entries.len() && (#[trigger] entries[i]).0@ == key {
        Some(choose|i: int| 0 <= i < entries.len() && (#[trigger] entries[i]).0@ == key)
    } else {
        None
    }
}

spec fn keys_distinct<T>(entries: Seq<(Address, T)>) -> bool {
    forall|i: int, j: int|
        0 <= i < j < entries.len() ==> (#[trigger] entries[i]).0@ != (#[trigger] entries[j]).0@
}

impl<T> Store<T> {
    #[verifier::type_invariant]
    spec fn well_formed(self) -> bool {
        keys_distinct(self.entries@)
    }

    /// The store as a map from the bytes of an address to what is kept there.
    pub closed spec fn map(self) -> Map<Seq<u8>, T> {
        Map::new(
            |key: Seq<u8>| place_of(self.entries@, key) is Some,
            |key: Seq<u8>| self.entries@[place_of(self.entries@, key)->0].1,
        )
    }

    /// A store that keeps nothing.
    pub fn new() -> (store: Store<T>)
        ensures
            store.map() == Map::<Seq<u8>, T>::empty(),
    {
        let store = Store { entries: Vec::new() };
        assert(store.map() =~= Map::<Seq<u8>, T>::empty());
        store
    }

    fn find(&self, key: &Address) -> (found: Option<usize>)
        ensures
            match found {
                Some(i) => i < self.entries@.len() && self.entries@[i as int].0@ == key@,
                None => forall|i: int|
                    0 <= i < self.entries@.len() ==> (#[trigger] self.entries@[i]).0@ != key@,
            },
    {
        let mut i: usize = 0;
        while i < self.entries.len()
            invariant
                i <= self.entries@.len(),
                forall|k: int| 0 <= k < i ==> (#[trigger] self.entries@[k]).0@ != key@,
            decreases self.entries@.len() - i,
        {
            if self.entries[i].0.same(key) {
                return Some(i);
            }
            i = i + 1;
        }
        None
    }

    /// What is kept at `key`, if anything.
    pub fn get(&self, key: &Address) -> (found: Option<&T>)
        ensures
            match found {
                Some(value) => self.map().contains_key(key@) && self.map()[key@] == *value,
                None => !self.map().contains_key(key@),
            },
    {
        proof {
            use_type_invariant(self);
        }
        match self.find(key) {
            Some(i) => {
                assert(place_of(self.entries@, key@) is Some);
                Some(&self.entries[i].1)
            },
            None => None,
        }
    }

    /// Whether anything is kept at `key`.
    pub fn contains(&self, key: &Address) -> (held: bool)
        ensures
            held == self.map().contains_key(key@),
    {
        self.get(key).is_some()
    }

    /// Keeps `value` at `key`, in place of what was kept there.
    pub fn insert(&mut self, key: Address, value: T)
        ensures
            final(self).map() == old(self).map().insert(key@, value),
    {
        proof {
            use_type_invariant(&*self);
        }
        let found = self.find(&key);
        let ghost before = self.entries@;
        let mut entries: Vec<(Address, T)> = Vec::new();
        core::mem::swap(&mut self.entries, &mut entries);
        match found {
            Some(i) => {
                entries[i] = (key, value);
                assert(entries@[i as int].0@ == key@);
            },
            None => {
                entries.push((key, value));
                assert(entries@[before.len() as int].0@ == key@);
            },
        }
        let ghost after = entries@;
        let ghost at: int = match found {
            Some(i) => i as int,
            None => before.len() as int,
        };
        assert(after[at] == (key, value));
        assert(forall|j: int| 0 <= j < before.len() && j != at ==> after[j] == before[j]);
        assert(keys_distinct(after));
        core::mem::swap(&mut self.entries, &mut entries);
        assert forall|k: Seq<u8>|
            (place_of(after, k) is Some) == (place_of(before, k) is Some || k == key@) by {
            if place_of(before, k) is Some {
                let j = place_of(before, k)->0;
                assert(after[j].0@ == k);
            }
            if k == key@ {
                assert(after[at].0@ == k);
            }
            if place_of(after, k) is Some && k != key@ {
                let j = place_of(after, k)->0;
                assert(before[j].0@ == k);
            }
        }
        assert forall|k: Seq<u8>| #[trigger]
            self.map().contains_key(k) implies self.map()[k] == old(self).map().insert(
            key@,
            value,
        )[k] by {
            let j = place_of(after, k)->0;
            if k == key@ {
                assert(j == at);
            } else {
                assert(before[j].0@ == k);
                assert(place_of(before, k) is Some);
                assert(place_of(before, k)->0 == j);
            }
        }
        assert(self.map() =~= old(self).map().insert(key@, value));
    }
}

} // verus!
