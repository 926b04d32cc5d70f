//! A small table from string keys to values, kept in a vector. It backs the
//! fetch table and the cursor table of the data client, both of which hold a
//! handful of entries and are never walked in order.

use vstd::prelude::*;
use crate::text::str_eq;
use crate::provider::assoc::{
    distinct_keys, has_key, lemma_index_of, lemma_table_push, lemma_table_remove, table_of,
};

verus! {

/// A table from keys to values in which no key occurs twice.
#[derive(Debug)]
pub struct KeyedStore<V> {
    entries: Vec<(&'static str, V)>,
}

impl<V> View for KeyedStore<V> {
    type V = Map<Seq<char>, V>;

    /// The table as a map from a key's characters to its value.
    closed spec fn view(&self) -> Map<Seq<char>, V> {
        table_of(self.slots())
    }
}

impl<V> KeyedStore<V> {
    /// The entries, each key by its characters, in the order they are kept.
    pub closed spec fn slots(&self) -> Seq<(Seq<char>, V)> {
        Seq::new(self.entries@.len(), |i: int| (self.entries@[i].0@, self.entries@[i].1))
    }

    /// No key occurs twice.
    pub closed spec fn wf(&self) -> bool {
        distinct_keys(self.slots())
    }

    /// An empty table.
    pub fn new() -> (store: Self)
        ensures
            store.wf(),
            store@ == Map::<Seq<char>, V>::empty(),
    {
        let store = KeyedStore { entries: Vec::new() };
        proof {
            assert(store.slots() =~= Seq::empty());
            assert(store@ =~= Map::<Seq<char>, V>::empty());
        }
        store
    }

    /// The number of keys in the table.
    pub fn len(&self) -> (n: usize)
        requires
            self.wf(),
        ensures
            n == self@.dom().len(),
            self@.dom().finite(),
    {
        proof {
            self.lemma_dom_len();
        }
        self.entries.len()
    }

    proof fn lemma_dom_len(&self)
        requires
            self.wf(),
        ensures
            self@.dom().finite(),
            self@.dom().len() == self.entries@.len(),
    {
        lemma_dom_of(self.slots());
    }

    /// Where `key` is kept, if it is.
    fn find(&self, key: &str) -> (at: Option<usize>)
        ensures
            match at {
                Some(i) => i < self.entries@.len() && self.slots()[i as int].0 == key@,
                None => !has_key(self.slots(), key@),
            },
    {
        let mut i: usize = 0;
        while i < self.entries.len()
            invariant
                i <= self.entries@.len(),
                forall|j: int| 0 <= j < i ==> (#[trigger] self.slots()[j]).0 != key@,
            decreases self.entries@.len() - i,
        {
            if str_eq(self.entries[i].0, key) {
                return Some(i);
            }
            i += 1;
        }
        None
    }

    /// Whether `key` is in the table.
    pub fn contains_key(&self, key: &str) -> (present: bool)
        ensures
            present == self@.contains_key(key@),
    {
        match self.find(key) {
            Some(i) => {
                assert(self.slots()[i as int].0 == key@);
                true
            },
            None => false,
        }
    }

    /// The value under `key`, if any.
    pub fn get(&self, key: &str) -> (value: Option<&V>)
        requires
            self.wf(),
        ensures
            match value {
                Some(v) => self@.contains_key(key@) && *v == self@[key@],
                None => !self@.contains_key(key@),
            },
    {
        match self.find(key) {
            Some(i) => {
                proof {
                    lemma_index_of(self.slots(), i as int);
                }
                Some(&self.entries[i].1)
            },
            None => None,
        }
    }

    /// Puts `value` under `key` and hands back the value it replaces.
    pub fn insert(&mut self, key: &'static str, value: V) -> (previous: Option<V>)
        requires
            old(self).wf(),
        ensures
            final(self).wf(),
            final(self)@ == old(self)@.insert(key@, value),
            match previous {
                Some(p) => old(self)@.contains_key(key@) && p == old(self)@[key@],
                None => !old(self)@.contains_key(key@),
            },
    {
        let ghost before = self.slots();
        let previous = self.remove(key);
        let ghost between = self.slots();
        self.entries.push((key, value));
        proof {
            assert(self.slots() =~= between.push((key@, value)));
            assert(!table_of(between).contains_key(key@));
            lemma_table_push(between, key@, value);
            assert(table_of(before).remove(key@).insert(key@, value) =~= table_of(before).insert(
                key@,
                value,
            ));
        }
        previous
    }

    /// Takes `key` out of the table and hands back its value.
    pub fn remove(&mut self, key: &str) -> (previous: Option<V>)
        requires
            old(self).wf(),
        ensures
            final(self).wf(),
            final(self)@ == old(self)@.remove(key@),
            match previous {
                Some(p) => old(self)@.contains_key(key@) && p == old(self)@[key@],
                None => !old(self)@.contains_key(key@),
            },
    {
        let ghost before = self.slots();
        match self.find(key) {
            Some(i) => {
                let entry = self.entries.remove(i);
                proof {
                    assert(self.slots() =~= before.remove(i as int));
                    lemma_index_of(before, i as int);
                    lemma_table_remove(before, i as int);
                }
                Some(entry.1)
            },
            None => {
                proof {
                    assert(table_of(before).remove(key@) =~= table_of(before));
                }
                None
            },
        }
    }
}

/// The keys of distinct pairs are as many as the pairs.
pub proof fn lemma_dom_of<T>(s: Seq<(Seq<char>, T)>)
    requires
        distinct_keys(s),
    ensures
        table_of(s).dom().finite(),
        table_of(s).dom().len() == s.len(),
    decreases s.len(),
{
    if s.len() == 0 {
        assert(table_of(s).dom() =~= Set::empty());
    } else {
        let last = s.len() - 1;
        let r = s.remove(last);
        lemma_table_remove(s, last);
        lemma_index_of(s, last);
        lemma_dom_of(r);
        assert(table_of(s).dom() =~= table_of(r).dom().insert(s[last].0));
    }
}

} // verus!
