//! The data client: one bounded store of payloads with least-recently-used
//! eviction, one table of the fetches in flight and one table of pagination
//! cursors, all keyed by resource name.
//!
//! The client is generic in the payload `V` and in the pending fetch `F`, and
//! looks into neither. The recency order is kept by an `LruCache` from key to
//! handle, the payloads by a slab from handle to payload.
//!
//! The client is meant to be mutated from one place at a time; it takes no
//! lock. A fetch that completes always writes through, even when its key was
//! written or evicted in the meantime: the last writer wins.

use vstd::prelude::*;
use lru::LruCache;
use crate::provider::assoc::{lemma_table_remove, value_of};
use crate::provider::handles::{
    lemma_resolved_keys, lemma_resolved_pushed, lemma_resolved_removed, lemma_resolved_touched,
    linked, resolved,
};
use crate::provider::keyed::KeyedStore;
use crate::provider::lru_store::{
    lru_cap, lru_entries, lru_get, lru_len, lru_limit, lru_pop_lru, lru_push, lru_resize,
    lru_unbounded,
};
use crate::provider::recency::{
    bounded, displaced, evicted_by, keep_newest, lemma_pushed_bounded, lemma_touched_bounded,
    payloads, pushed, touched,
};
use crate::provider::slab::Slab;

verus! {

/// What `update` is given for a key: a payload that is there, or the fetch
/// that will bring one.
#[derive(Debug)]
pub enum ValueOption<V, F> {
    /// A payload to store.
    Value(V),
    /// A pending fetch to track.
    FutureValue(F),
}

/// Why the client turned a request down.
#[derive(Debug, Clone, Copy, PartialEq, Eq, Structural)]
pub enum ClientError {
    /// A store must be able to hold at least one entry.
    InvalidCapacity,
}

/// What the end of a fetch releases.
#[derive(Debug, PartialEq, Eq)]
pub struct Completion<V, F> {
    /// The fetch that was tracked for the key, if there was one.
    pub task: Option<F>,
    /// The payload that left the store when the result was written.
    pub gone: Option<V>,
}

/// The fetch table after a fetch `task` is announced for `key`: a key that is
/// already being fetched keeps the fetch it has.
pub open spec fn begun<F>(fetches: Map<Seq<char>, F>, key: Seq<char>, task: F) -> Map<
    Seq<char>,
    F,
> {
    if fetches.contains_key(key) {
        fetches
    } else {
        fetches.insert(key, task)
    }
}

/// At most one fetch per key: announcing a second fetch for a key changes
/// nothing, and the key stays tracked under the first.
pub proof fn lemma_one_fetch_per_key<F>(
    fetches: Map<Seq<char>, F>,
    key: Seq<char>,
    first: F,
    second: F,
)
    ensures
        begun(fetches, key, first).contains_key(key),
        begun(begun(fetches, key, first), key, second) == begun(fetches, key, first),
        !fetches.contains_key(key) ==> begun(begun(fetches, key, first), key, second)[key]
            == first,
{
}

/// The cursor tokens of a table, each as its characters.
pub open spec fn tokens(cursors: Map<Seq<char>, String>) -> Map<Seq<char>, Seq<char>> {
    Map::new(|k: Seq<char>| cursors.contains_key(k), |k: Seq<char>| cursors[k]@)
}

/// The shared data client.
#[derive(Debug)]
pub struct DataClient<V, F> {
    cache: LruCache<&'static str, usize>,
    payloads: Slab<V>,
    current_futures: KeyedStore<F>,
    cursors: KeyedStore<String>,
}

impl<V, F> DataClient<V, F> {
    /// The stored entries, from the least to the most recently used.
    pub closed spec fn cached(&self) -> Seq<(Seq<char>, V)> {
        resolved(lru_entries(&self.cache), self.payloads@)
    }

    /// The number of entries the store may hold.
    pub closed spec fn capacity(&self) -> nat {
        lru_limit(&self.cache)
    }

    /// The fetches in flight, by key.
    pub closed spec fn in_flight(&self) -> Map<Seq<char>, F> {
        self.current_futures@
    }

    /// The pagination cursors: key to token.
    pub closed spec fn cursor_table(&self) -> Map<Seq<char>, Seq<char>> {
        tokens(self.cursors@)
    }

    /// The parts fit together: the order holds no key twice and no more
    /// entries than the capacity, each entry has a handle of its own with a
    /// payload in the slab, and the two tables hold no key twice.
    pub closed spec fn parts_wf(&self) -> bool {
        &&& bounded(lru_entries(&self.cache), lru_limit(&self.cache))
        &&& linked(lru_entries(&self.cache), self.payloads@)
        &&& self.payloads.wf()
        &&& self.current_futures.wf()
        &&& self.cursors.wf()
    }

    /// The client's invariant: the store holds no key twice and never more
    /// entries than its positive capacity.
    pub open spec fn wf(&self) -> bool {
        bounded(self.cached(), self.capacity()) && self.parts_wf()
    }

    proof fn lemma_cached_bounded(&self)
        requires
            self.parts_wf(),
        ensures
            self.wf(),
    {
        lemma_resolved_keys(lru_entries(&self.cache), self.payloads@, Seq::<char>::empty());
    }

    /// A client with an empty store of the given capacity and empty tables.
    /// A capacity of zero is turned down. No room is reserved up front, so
    /// every positive capacity can be had.
    pub fn new(storage_max_size: usize) -> (made: Result<Self, ClientError>)
        ensures
            match made {
                Ok(client) => {
                    &&& storage_max_size > 0
                    &&& client.wf()
                    &&& client.capacity() == storage_max_size
                    &&& client.cached() == Seq::<(Seq<char>, V)>::empty()
                    &&& client.in_flight() == Map::<Seq<char>, F>::empty()
                    &&& client.cursor_table() == Map::<Seq<char>, Seq<char>>::empty()
                },
                Err(e) => storage_max_size == 0 && e == ClientError::InvalidCapacity,
            },
    {
        if storage_max_size == 0 {
            return Err(ClientError::InvalidCapacity);
        }
        let mut cache = lru_unbounded();
        lru_resize(&mut cache, storage_max_size);
        let client = DataClient {
            cache,
            payloads: Slab::new(),
            current_futures: KeyedStore::new(),
            cursors: KeyedStore::new(),
        };
        proof {
            assert(client.cached() =~= Seq::<(Seq<char>, V)>::empty());
            assert(client.cursor_table() =~= Map::<Seq<char>, Seq<char>>::empty());
            client.lemma_cached_bounded();
        }
        Ok(client)
    }

    /// The payload stored under `key`, if any. A hit makes the entry the most
    /// recently used one; a miss changes nothing.
    pub fn read(&mut self, key: &'static str) -> (value: Option<&V>)
        requires
            old(self).wf(),
        ensures
            final(self).wf(),
            match value {
                Some(v) => value_of(old(self).cached(), key@) == Some(*v),
                None => value_of(old(self).cached(), key@).is_none(),
            },
            final(self).cached() == touched(old(self).cached(), key@),
            final(self).capacity() == old(self).capacity(),
            final(self).in_flight() == old(self).in_flight(),
            final(self).cursor_table() == old(self).cursor_table(),
    {
        let ghost order = lru_entries(&self.cache);
        proof {
            lemma_touched_bounded(order, self.capacity(), key@);
            lemma_resolved_touched(order, self.payloads@, key@);
            lemma_resolved_keys(order, self.payloads@, key@);
        }
        let found = lru_get(&mut self.cache, key);
        proof {
            self.lemma_cached_bounded();
        }
        match found {
            Some(handle) => Some(self.payloads.get(handle)),
            None => None,
        }
    }

    /// Stores `value` under `key` as the most recently used entry and hands
    /// back the payload that left the store for it. An entry with that key is
    /// overwritten; otherwise a full store first drops its least recently
    /// used entry.
    pub fn put(&mut self, key: &'static str, value: V) -> (gone: Option<V>)
        requires
            old(self).wf(),
        ensures
            final(self).wf(),
            gone == displaced(old(self).cached(), old(self).capacity(), key@),
            final(self).cached() == pushed(old(self).cached(), old(self).capacity(), key@, value),
            final(self).capacity() == old(self).capacity(),
            final(self).in_flight() == old(self).in_flight(),
            final(self).cursor_table() == old(self).cursor_table(),
    {
        let ghost order = lru_entries(&self.cache);
        let ghost held = self.payloads@;
        let ghost payload = value;
        let handle = self.payloads.insert(value);
        proof {
            lemma_pushed_bounded(order, self.capacity(), key@, handle);
            lemma_resolved_pushed(order, held, self.capacity(), key@, handle, payload);
        }
        let left = lru_push(&mut self.cache, key, handle);
        let gone = match left {
            Some(old_handle) => Some(self.payloads.take(old_handle)),
            None => None,
        };
        proof {
            self.lemma_cached_bounded();
        }
        gone
    }

    /// Whether a fetch for `key` is in flight.
    pub fn is_fetching(&self, key: &'static str) -> (fetching: bool)
        ensures
            fetching == self.in_flight().contains_key(key@),
    {
        self.current_futures.contains_key(key)
    }

    /// The fetch in flight for `key`, if there is one.
    pub fn fetch_of(&self, key: &'static str) -> (task: Option<&F>)
        requires
            self.wf(),
        ensures
            match task {
                Some(t) => self.in_flight().contains_key(key@) && *t == self.in_flight()[key@],
                None => !self.in_flight().contains_key(key@),
            },
    {
        self.current_futures.get(key)
    }

    /// Announces the fetch `task` for `key`. While a fetch for the key is in
    /// flight the call changes nothing and hands `task` back; otherwise
    /// `task` is tracked for the key and nothing is handed back.
    pub fn begin(&mut self, key: &'static str, task: F) -> (refused: Option<F>)
        requires
            old(self).wf(),
        ensures
            final(self).wf(),
            final(self).in_flight() == begun(old(self).in_flight(), key@, task),
            refused == if old(self).in_flight().contains_key(key@) {
                Some(task)
            } else {
                None
            },
            final(self).cached() == old(self).cached(),
            final(self).capacity() == old(self).capacity(),
            final(self).cursor_table() == old(self).cursor_table(),
    {
        if self.current_futures.contains_key(key) {
            Some(task)
        } else {
            self.current_futures.insert(key, task);
            None
        }
    }

    /// Ends the fetch for `key` and stores its `result` as `put` does. The
    /// result is stored whether or not the key was written or evicted while
    /// the fetch ran, and whether or not a fetch was tracked at all. Handed
    /// back are the fetch that was tracked for the key, if any, and the
    /// payload that left the store.
    pub fn complete(&mut self, key: &'static str, result: V) -> (ended: Completion<V, F>)
        requires
            old(self).wf(),
        ensures
            final(self).wf(),
            ended.task == if old(self).in_flight().contains_key(key@) {
                Some(old(self).in_flight()[key@])
            } else {
                None
            },
            ended.gone == displaced(old(self).cached(), old(self).capacity(), key@),
            final(self).in_flight() == old(self).in_flight().remove(key@),
            final(self).cached() == pushed(old(self).cached(), old(self).capacity(), key@, result),
            final(self).capacity() == old(self).capacity(),
            final(self).cursor_table() == old(self).cursor_table(),
    {
        let task = self.current_futures.remove(key);
        let gone = self.put(key, result);
        Completion { task, gone }
    }

    /// Stores a payload (as `put`) or announces a fetch (as `begin`). What
    /// `put` or `begin` would hand back is dropped.
    pub fn update(&mut self, key: &'static str, value: ValueOption<V, F>)
        requires
            old(self).wf(),
        ensures
            final(self).wf(),
            match value {
                ValueOption::Value(payload) => {
                    &&& final(self).cached() == pushed(
                        old(self).cached(),
                        old(self).capacity(),
                        key@,
                        payload,
                    )
                    &&& final(self).in_flight() == old(self).in_flight()
                },
                ValueOption::FutureValue(task) => {
                    &&& final(self).cached() == old(self).cached()
                    &&& final(self).in_flight() == begun(old(self).in_flight(), key@, task)
                },
            },
            final(self).capacity() == old(self).capacity(),
            final(self).cursor_table() == old(self).cursor_table(),
    {
        match value {
            ValueOption::Value(payload) => {
                self.put(key, payload);
            },
            ValueOption::FutureValue(task) => {
                self.begin(key, task);
            },
        };
    }

    /// The cursor kept for `key`, if any.
    pub fn get_cursor(&mut self, key: &'static str) -> (token: Option<&String>)
        requires
            old(self).wf(),
        ensures
            *final(self) == *old(self),
            match token {
                Some(t) => old(self).cursor_table().contains_key(key@) && t@ == old(
                    self,
                ).cursor_table()[key@],
                None => !old(self).cursor_table().contains_key(key@),
            },
    {
        self.cursors.get(key)
    }

    /// Keeps `value` as the cursor for `key` and hands back the cursor it
    /// replaces. The store and the fetch table are not touched.
    pub fn set_cursor(&mut self, key: &'static str, value: String) -> (previous: Option<String>)
        requires
            old(self).wf(),
        ensures
            final(self).wf(),
            final(self).cursor_table() == old(self).cursor_table().insert(key@, value@),
            match previous {
                Some(p) => old(self).cursor_table().contains_key(key@) && p@ == old(
                    self,
                ).cursor_table()[key@],
                None => !old(self).cursor_table().contains_key(key@),
            },
            final(self).cached() == old(self).cached(),
            final(self).capacity() == old(self).capacity(),
            final(self).in_flight() == old(self).in_flight(),
    {
        let ghost token = value@;
        let previous = self.cursors.insert(key, value);
        proof {
            assert(self.cursor_table() =~= old(self).cursor_table().insert(key@, token));
        }
        previous
    }

    /// Sets the capacity and hands back the payloads that left the store for
    /// it, the least recently used first. A store that holds more entries
    /// than the new capacity drops its least recently used ones until it
    /// fits; a smaller store keeps everything. A capacity of zero is turned
    /// down and changes nothing.
    pub fn resize(&mut self, new_max_size: usize) -> (done: Result<Vec<V>, ClientError>)
        requires
            old(self).wf(),
        ensures
            final(self).wf(),
            match done {
                Ok(evicted) => {
                    &&& new_max_size > 0
                    &&& final(self).capacity() == new_max_size
                    &&& final(self).cached() == keep_newest(old(self).cached(), new_max_size as nat)
                    &&& evicted@ == payloads(evicted_by(old(self).cached(), new_max_size as nat))
                },
                Err(e) => {
                    &&& new_max_size == 0
                    &&& e == ClientError::InvalidCapacity
                    &&& final(self).capacity() == old(self).capacity()
                    &&& final(self).cached() == old(self).cached()
                },
            },
            final(self).in_flight() == old(self).in_flight(),
            final(self).cursor_table() == old(self).cursor_table(),
    {
        if new_max_size == 0 {
            return Err(ClientError::InvalidCapacity);
        }
        let ghost before = self.cached();
        let ghost fetches = self.in_flight();
        let ghost cursors = self.cursor_table();
        let mut evicted: Vec<V> = Vec::new();
        while lru_len(&self.cache) > new_max_size
            invariant
                new_max_size > 0,
                self.parts_wf(),
                self.in_flight() == fetches,
                self.cursor_table() == cursors,
                evicted@.len() <= before.len(),
                evicted@.len() > 0 ==> before.len() - evicted@.len() >= new_max_size,
                self.cached() == before.subrange(evicted@.len() as int, before.len() as int),
                evicted@ == payloads(before.subrange(0, evicted@.len() as int)),
            decreases lru_entries(&self.cache).len(),
        {
            let ghost order = lru_entries(&self.cache);
            let ghost held = self.payloads@;
            let ghost n = evicted@.len() as int;
            proof {
                assert(order.len() > 0);
                assert(order.drop_first() =~= order.remove(0));
                lemma_table_remove(order, 0);
                lemma_resolved_removed(order, held, 0);
                assert(resolved(order, held)[0] == before[n]);
            }
            let left = lru_pop_lru(&mut self.cache);
            match left {
                Some(handle) => {
                    let payload = self.payloads.take(handle);
                    evicted.push(payload);
                },
                None => {},
            }
            proof {
                assert(self.cached() =~= before.subrange(n + 1, before.len() as int));
                assert(evicted@ =~= payloads(before.subrange(0, n + 1)));
            }
        }
        proof {
            let n = evicted@.len() as int;
            lemma_resolved_keys(lru_entries(&self.cache), self.payloads@, Seq::<char>::empty());
            if before.len() > new_max_size {
                assert(n == before.len() - new_max_size);
            } else {
                assert(n == 0);
                assert(self.cached() =~= before);
                assert(evicted@ =~= payloads(evicted_by(before, new_max_size as nat)));
            }
            assert(self.cached() == keep_newest(before, new_max_size as nat));
        }
        lru_resize(&mut self.cache, new_max_size);
        proof {
            self.lemma_cached_bounded();
        }
        Ok(evicted)
    }

    /// The capacity of the store.
    pub fn max_size(&self) -> (size: usize)
        ensures
            size == self.capacity(),
    {
        lru_cap(&self.cache)
    }

    /// The number of entries the store holds.
    pub fn len(&self) -> (count: usize)
        ensures
            count == self.cached().len(),
    {
        lru_len(&self.cache)
    }
}

} // verus!
