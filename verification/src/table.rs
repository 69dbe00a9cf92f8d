//! A hash table keyed by a type that has a number for each of its values.

use std::collections::HashMap;
use std::marker::PhantomData;
use vstd::prelude::*;

verus! {

broadcast use vstd::std_specs::hash::group_hash_axioms;

/// A type whose values are numbered, no two alike.
pub trait Key: Sized + Copy {
    /// The number of a value.
    spec fn code(self) -> u128;

    /// The number of a value.
    fn to_code(self) -> (c: u128)
        ensures
            c == self.code(),
    ;

    /// Values with the same number are the same.
    proof fn lemma_code_injective(a: Self, b: Self)
        requires
            a.code() == b.code(),
        ensures
            a == b,
    ;
}

/// A table from `K` to `V`. Its view is the map it stands for.
#[verifier::reject_recursive_types(K)]
#[verifier::reject_recursive_types(V)]
pub struct Table<K: Key, V> {
    entries: HashMap<u128, V>,
    key: PhantomData<K>,
}

impl<K: Key, V> View for Table<K, V> {
    type V = Map<K, V>;

    closed spec fn view(&self) -> Map<K, V> {
        Map::new(
            |k: K| self.entries@.contains_key(k.code()),
            |k: K| self.entries@[k.code()],
        )
    }
}

impl<K: Key, V> Table<K, V> {
    /// The empty table.
    pub fn new() -> (table: Self)
        ensures
            table@ == Map::<K, V>::empty(),
    {
        let table = Table { entries: HashMap::new(), key: PhantomData };
        assert(table@ =~= Map::<K, V>::empty());
        table
    }

    /// Is there an entry for `key`?
    pub fn contains_key(&self, key: K) -> (found: bool)
        ensures
            found == self@.contains_key(key),
    {
        self.entries.contains_key(&key.to_code())
    }

    /// The entry for `key`.
    pub fn get(&self, key: K) -> (value: Option<&V>)
        ensures
            value == (if self@.contains_key(key) {
                Some(&self@[key])
            } else {
                None
            }),
    {
        self.entries.get(&key.to_code())
    }

    /// Puts `value` under `key` and hands back what stood there.
    pub fn insert(&mut self, key: K, value: V) -> (previous: Option<V>)
        ensures
            final(self)@ == old(self)@.insert(key, value),
            previous == (if old(self)@.contains_key(key) {
                Some(old(self)@[key])
            } else {
                None
            }),
    {
        let previous = self.entries.insert(key.to_code(), value);
        proof {
            assert forall|k: K| k.code() == key.code() implies k == key by {
                K::lemma_code_injective(k, key);
            }
            assert(self@ =~= old(self)@.insert(key, value));
        }
        previous
    }

    /// Takes out the entry for `key`.
    pub fn remove(&mut self, key: K) -> (value: Option<V>)
        ensures
            final(self)@ == old(self)@.remove(key),
            value == (if old(self)@.contains_key(key) {
                Some(old(self)@[key])
            } else {
                None
            }),
    {
        let value = self.entries.remove(&key.to_code());
        proof {
            assert forall|k: K| k.code() == key.code() implies k == key by {
                K::lemma_code_injective(k, key);
            }
            assert(self@ =~= old(self)@.remove(key));
        }
        value
    }
}

} // verus!
