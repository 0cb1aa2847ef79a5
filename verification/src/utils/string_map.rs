//! A map keyed by strings that keeps its keys in insertion order.
use vstd::prelude::*;

use crate::utils::text::str_eq;
use crate::value::entries::{entries_get, entries_insert, key_index, lemma_key_index, lemma_key_index_at};

verus! {

/// A map from strings to values whose entries keep the order in which their keys
/// were first inserted.
#[derive(Debug, Clone)]
pub struct StringMap<V> {
    entries: Vec<(String, V)>,
}

impl<V: View> View for StringMap<V> {
    type V = Seq<(Seq<char>, V::V)>;

    closed spec fn view(&self) -> Seq<(Seq<char>, V::V)> {
        Seq::new(self.entries@.len(), |i: int| (self.entries@[i].0@, self.entries@[i].1@))
    }
}

impl<V: View> StringMap<V> {
    /// Creates an empty map.
    pub fn new() -> (m: StringMap<V>)
        ensures
            m@ == Seq::<(Seq<char>, V::V)>::empty(),
    {
        let m = StringMap { entries: Vec::new() };
        assert(m@ =~= Seq::<(Seq<char>, V::V)>::empty());
        m
    }

    /// Number of entries.
    pub fn len(&self) -> (n: usize)
        ensures
            n == self@.len(),
    {
        self.entries.len()
    }

    /// Position of the first entry with the given key.
    fn find(&self, key: &str) -> (r: Option<usize>)
        ensures
            r matches Some(i) ==> i == key_index(self@, key@) && i < self@.len(),
            r is None ==> key_index(self@, key@) == -1,
    {
        proof {
            lemma_key_index(self@, key@);
        }
        let mut i: usize = 0;
        while i < self.entries.len()
            invariant
                i <= self@.len(),
                self@.len() == self.entries@.len(),
                forall|j: int| 0 <= j < i ==> (#[trigger] self@[j]).0 != key@,
            decreases self.entries.len() - i,
        {
            if str_eq(self.entries[i].0.as_str(), key) {
                proof {
                    lemma_key_index_at(self@, key@, i as int);
                }
                return Some(i);
            }
            i = i + 1;
        }
        None
    }

    /// Inserts a key-value pair. An existing key keeps its position and takes the new
    /// value; a new key is appended last.
    pub fn insert(&mut self, key: String, value: V)
        ensures
            final(self)@ == entries_insert(old(self)@, key@, value@),
    {
        let ghost value_view = value@;
        let ghost key_view = key@;
        let ghost old_view = self@;
        let ghost old_entries = self.entries@;
        proof {
            lemma_key_index(old_view, key_view);
        }
        match self.find(key.as_str()) {
            Some(i) => {
                let (k, _p) = self.entries.remove(i);
                self.entries.insert(i, (k, value));
                proof {
                    assert(self.entries@ =~= old_entries.update(i as int, (k, value)));
                    assert(old_view[i as int].0 == key_view);
                    assert(self@ =~= entries_insert(old_view, key_view, value_view));
                }
            },
            None => {
                self.entries.push((key, value));
                assert(self@ =~= entries_insert(old_view, key_view, value_view));
            },
        }
    }

    /// The value stored under `key`, if any.
    pub fn get(&self, key: &str) -> (r: Option<&V>)
        ensures
            r is Some <==> key_index(self@, key@) >= 0,
            r matches Some(v) ==> entries_get(self@, key@) == Some(v@),
    {
        match self.find(key) {
            Some(i) => Some(&self.entries[i].1),
            None => None,
        }
    }

    /// The entries, in order.
    pub fn entries(&self) -> (r: &Vec<(String, V)>)
        ensures
            r@.len() == self@.len(),
            forall|i: int| 0 <= i < r@.len() ==> #[trigger] self@[i] == (r@[i].0@, r@[i].1@),
    {
        &self.entries
    }
}

} // verus!
