//! An ordered mapping from batch digests to values.

use crate::entries::{
    entries_to_map, entry_views, has_key, keys_distinct, lemma_push_map, lemma_without_key_absent,
    lemma_without_key_map, lemma_without_key_present, position_of, without_key,
};
use crate::types::HashValue;
use vstd::prelude::*;

verus! {

/// A mapping from batch digests to values that remembers the order in which
/// its entries were stored.
///
/// No digest is stored twice.
pub struct DigestMap<V> {
    entries: Vec<(HashValue, V)>,
}

impl<V> DigestMap<V> {
    /// The invariant: no digest occurs twice.
    #[verifier::type_invariant]
    pub open spec fn well_formed(&self) -> bool {
        keys_distinct(self.entries())
    }

    /// The entries, oldest first.
    pub closed spec fn entries(&self) -> Seq<(HashValue, V)> {
        self.entries@
    }

    /// The mapping, without the order.
    pub open spec fn view(&self) -> Map<HashValue, V> {
        entries_to_map(self.entries())
    }

    /// The entries, oldest first, each value given by what it stands for.
    pub open spec fn model(&self) -> Seq<(HashValue, V::V)> where V: View {
        entry_views(self.entries())
    }

    /// The empty mapping.
    pub fn new() -> (m: Self)
        ensures
            m.entries() == Seq::<(HashValue, V)>::empty(),
    {
        Self { entries: Vec::new() }
    }

    /// The number of entries.
    pub fn len(&self) -> (n: usize)
        ensures
            n == self.entries().len(),
    {
        self.entries.len()
    }

    /// The position of the entry stored under `key`, if there is one.
    pub fn position(&self, key: &HashValue) -> (r: Option<usize>)
        ensures
            match r {
                Some(i) => i < self.entries().len() && self.entries()[i as int].0 == *key
                    && position_of(self.entries(), *key) == i,
                None => !has_key(self.entries(), *key),
            },
    {
        proof {
            use_type_invariant(self);
        }
        let mut i: usize = 0;
        while i < self.entries.len()
            invariant
                i <= self.entries@.len(),
                keys_distinct(self.entries@),
                forall|j: int| 0 <= j < i ==> (#[trigger] self.entries@[j]).0 != *key,
            decreases self.entries@.len() - i,
        {
            if self.entries[i].0.equals(key) {
                return Some(i);
            }
            i += 1;
        }
        None
    }

    /// Whether something is stored under `key`.
    pub fn contains_key(&self, key: &HashValue) -> (b: bool)
        ensures
            b == self@.dom().contains(*key),
    {
        self.position(key).is_some()
    }

    /// The digest of the entry at position `i`.
    pub fn key_at(&self, i: usize) -> (key: &HashValue)
        requires
            i < self.entries().len(),
        ensures
            *key == self.entries()[i as int].0,
    {
        &self.entries[i].0
    }

    /// The value of the entry at position `i`.
    pub fn value_at(&self, i: usize) -> (value: &V)
        requires
            i < self.entries().len(),
        ensures
            *value == self.entries()[i as int].1,
    {
        &self.entries[i].1
    }

    /// The value stored under `key`, if there is one.
    pub fn get(&self, key: &HashValue) -> (r: Option<&V>)
        ensures
            match r {
                Some(value) => self@.dom().contains(*key) && *value == self@[*key],
                None => !self@.dom().contains(*key),
            },
    {
        match self.position(key) {
            Some(i) => Some(&self.entries[i].1),
            None => None,
        }
    }

    /// Takes out the entry stored under `key` and returns its value.
    pub fn remove(&mut self, key: &HashValue) -> (r: Option<V>)
        ensures
            final(self).entries() == without_key(old(self).entries(), *key),
            final(self)@ == old(self)@.remove(*key),
            match r {
                Some(value) => old(self)@.dom().contains(*key) && value == old(self)@[*key],
                None => !old(self)@.dom().contains(*key),
            },
    {
        proof {
            use_type_invariant(&*self);
            lemma_without_key_map(self.entries@, *key);
        }
        match self.position(key) {
            Some(i) => {
                proof {
                    lemma_without_key_present(self.entries@, *key, i as int);
                }
                let mut entries = Vec::new();
                std::mem::swap(&mut entries, &mut self.entries);
                let entry = entries.remove(i);
                self.entries = entries;
                Some(entry.1)
            },
            None => {
                proof {
                    lemma_without_key_absent(self.entries@, *key);
                }
                None
            },
        }
    }

    /// Stores `value` under `key` as the newest entry, in place of whatever
    /// was stored under `key` before, and returns the value that was.
    pub fn insert(&mut self, key: HashValue, value: V) -> (r: Option<V>)
        ensures
            final(self).entries() == without_key(old(self).entries(), key).push((key, value)),
            final(self)@ == old(self)@.insert(key, value),
            match r {
                Some(previous) => old(self)@.dom().contains(key) && previous == old(self)@[key],
                None => !old(self)@.dom().contains(key),
            },
    {
        let previous = self.remove(&key);
        proof {
            use_type_invariant(&*self);
            lemma_push_map(self.entries@, key, value);
        }
        let mut entries = Vec::new();
        std::mem::swap(&mut entries, &mut self.entries);
        entries.push((key, value));
        self.entries = entries;
        previous
    }
}

} // verus!
