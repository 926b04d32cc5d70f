//! The mathematical model of a recency-ordered store.
//!
//! A store is a sequence of `(key, payload)` pairs. The pair at index 0 is the
//! least recently used one, the last pair the most recently used one.

use vstd::prelude::*;
use crate::provider::assoc::{
    distinct_keys, has_key, index_of, lemma_index_of, lemma_table_push, lemma_table_remove,
    lemma_value_of_table, table_of, value_of,
};

verus! {

/// The store after a read of `k`: a pair with that key becomes the most
/// recently used one, and nothing else moves.
pub open spec fn touched<T>(s: Seq<(Seq<char>, T)>, k: Seq<char>) -> Seq<(Seq<char>, T)> {
    if has_key(s, k) {
        s.remove(index_of(s, k)).push(s[index_of(s, k)])
    } else {
        s
    }
}

/// The store after `(k, v)` is written under the bound `limit`: a pair with
/// key `k` is replaced; otherwise, if the store is full, the least recently
/// used pair leaves. Either way `(k, v)` becomes the most recently used pair.
pub open spec fn pushed<T>(s: Seq<(Seq<char>, T)>, limit: nat, k: Seq<char>, v: T) -> Seq<
    (Seq<char>, T),
> {
    if has_key(s, k) {
        s.remove(index_of(s, k)).push((k, v))
    } else if s.len() < limit {
        s.push((k, v))
    } else {
        s.drop_first().push((k, v))
    }
}

/// The payload that a write of `k` under the bound `limit` puts out of the
/// store: the one that stood under `k`, or the least recently used one where
/// a full store makes room, or none.
pub open spec fn displaced<T>(s: Seq<(Seq<char>, T)>, limit: nat, k: Seq<char>) -> Option<T> {
    if has_key(s, k) {
        Some(s[index_of(s, k)].1)
    } else if s.len() < limit {
        None
    } else {
        Some(s[0].1)
    }
}

/// The payloads of the pairs of `s`, in their order.
pub open spec fn payloads<T>(s: Seq<(Seq<char>, T)>) -> Seq<T> {
    Seq::new(s.len(), |i: int| s[i].1)
}

/// The store cut down to its `limit` most recently used pairs.
pub open spec fn keep_newest<T>(s: Seq<(Seq<char>, T)>, limit: nat) -> Seq<(Seq<char>, T)> {
    if s.len() <= limit {
        s
    } else {
        s.subrange(s.len() - limit, s.len() as int)
    }
}

/// What a cut to `limit` pairs removes: the least recently used pairs.
pub open spec fn evicted_by<T>(s: Seq<(Seq<char>, T)>, limit: nat) -> Seq<(Seq<char>, T)> {
    if s.len() <= limit {
        Seq::empty()
    } else {
        s.subrange(0, s.len() - limit)
    }
}

/// A store as the client keeps it: no key twice, and never more pairs than
/// its positive bound.
pub open spec fn bounded<T>(s: Seq<(Seq<char>, T)>, limit: nat) -> bool {
    &&& distinct_keys(s)
    &&& s.len() <= limit
    &&& limit > 0
}

/// A read keeps the store within its bound: the same pairs, in another order.
pub proof fn lemma_touched_bounded<T>(s: Seq<(Seq<char>, T)>, limit: nat, k: Seq<char>)
    requires
        bounded(s, limit),
    ensures
        bounded(touched(s, k), limit),
        touched(s, k).len() == s.len(),
        forall|q: Seq<char>| value_of(touched(s, k), q) == value_of(s, q),
{
    let t = touched(s, k);
    if has_key(s, k) {
        let i = index_of(s, k);
        let r = s.remove(i);
        lemma_table_remove(s, i);
        lemma_table_push(r, k, s[i].1);
        assert(s[i] == (k, s[i].1));
        assert(table_of(t) =~= table_of(s)) by {
            lemma_index_of(s, i);
            assert(table_of(s).remove(k).insert(k, s[i].1) =~= table_of(s));
        }
    }
    assert forall|q: Seq<char>| value_of(t, q) == value_of(s, q) by {
        lemma_value_of_table(t, q);
        lemma_value_of_table(s, q);
    }
}

/// A write keeps the store within its bound, whatever it held.
pub proof fn lemma_pushed_bounded<T>(s: Seq<(Seq<char>, T)>, limit: nat, k: Seq<char>, v: T)
    requires
        bounded(s, limit),
    ensures
        bounded(pushed(s, limit, k, v), limit),
{
    if has_key(s, k) {
        let i = index_of(s, k);
        lemma_table_remove(s, i);
        lemma_table_push(s.remove(i), k, v);
    } else if s.len() < limit {
        lemma_table_push(s, k, v);
    } else {
        lemma_table_remove(s, 0);
        assert(s.drop_first() =~= s.remove(0));
        let r = s.remove(0);
        if has_key(r, k) {
            let a = index_of(r, k);
            assert(r[a] == s[a + 1]);
        }
        lemma_table_push(r, k, v);
    }
}

/// One step in the life of a store: a write or a read.
pub enum StoreOp<T> {
    /// `(key, payload)` is written.
    Put(Seq<char>, T),
    /// The key is read.
    Get(Seq<char>),
}

/// The store after one step.
pub open spec fn step<T>(s: Seq<(Seq<char>, T)>, limit: nat, op: StoreOp<T>) -> Seq<(Seq<char>, T)> {
    match op {
        StoreOp::Put(k, v) => pushed(s, limit, k, v),
        StoreOp::Get(k) => touched(s, k),
    }
}

/// The store after the steps `ops`, taken in order.
pub open spec fn run<T>(s: Seq<(Seq<char>, T)>, limit: nat, ops: Seq<StoreOp<T>>) -> Seq<
    (Seq<char>, T),
>
    decreases ops.len(),
{
    if ops.len() == 0 {
        s
    } else {
        step(run(s, limit, ops.drop_last()), limit, ops.last())
    }
}

/// Whatever is written and read, in whatever order, the store never holds
/// more pairs than its bound, nor a key twice.
pub proof fn lemma_run_bounded<T>(s: Seq<(Seq<char>, T)>, limit: nat, ops: Seq<StoreOp<T>>)
    requires
        bounded(s, limit),
    ensures
        bounded(run(s, limit, ops), limit),
        run(s, limit, ops).len() <= limit,
    decreases ops.len(),
{
    if ops.len() > 0 {
        let before = run(s, limit, ops.drop_last());
        lemma_run_bounded(s, limit, ops.drop_last());
        match ops.last() {
            StoreOp::Put(k, v) => {
                lemma_pushed_bounded(before, limit, k, v);
            },
            StoreOp::Get(k) => {
                lemma_touched_bounded(before, limit, k);
            },
        }
    }
}

/// Read-your-write: right after `(k, v)` is written, `k` reads as `v`, and
/// the pair is the most recently used one.
pub proof fn lemma_read_after_write<T>(s: Seq<(Seq<char>, T)>, limit: nat, k: Seq<char>, v: T)
    requires
        bounded(s, limit),
    ensures
        value_of(pushed(s, limit, k, v), k) == Some(v),
        pushed(s, limit, k, v).last() == (k, v),
{
    let t = pushed(s, limit, k, v);
    lemma_pushed_bounded(s, limit, k, v);
    assert(t[t.len() - 1] == (k, v));
    lemma_index_of(t, t.len() - 1);
}

/// A write leaves every other key readable as before, but for the least
/// recently used one where a full store makes room for a new key: that key
/// reads as absent afterwards.
pub proof fn lemma_write_keeps_others<T>(
    s: Seq<(Seq<char>, T)>,
    limit: nat,
    k: Seq<char>,
    v: T,
    q: Seq<char>,
)
    requires
        bounded(s, limit),
        q != k,
    ensures
        has_key(s, k) || s.len() < limit ==> value_of(pushed(s, limit, k, v), q) == value_of(s, q),
        !has_key(s, k) && s.len() == limit && q != s[0].0 ==> value_of(pushed(s, limit, k, v), q)
            == value_of(s, q),
        !has_key(s, k) && s.len() == limit && q == s[0].0 ==> value_of(pushed(s, limit, k, v), q)
            == None::<T>,
{
    let t = pushed(s, limit, k, v);
    lemma_value_of_table(t, q);
    lemma_value_of_table(s, q);
    if has_key(s, k) {
        let i = index_of(s, k);
        lemma_table_remove(s, i);
        lemma_table_push(s.remove(i), k, v);
    } else if s.len() < limit {
        lemma_table_push(s, k, v);
    } else {
        lemma_table_remove(s, 0);
        assert(s.drop_first() =~= s.remove(0));
        let r = s.remove(0);
        if has_key(r, k) {
            let a = index_of(r, k);
            assert(r[a] == s[a + 1]);
        }
        lemma_table_push(r, k, v);
    }
}

/// A cut below the current size removes exactly the surplus, and what it
/// removes are the least recently used pairs: the store is the removed pairs
/// followed by the kept ones.
pub proof fn lemma_shrink_evicts_oldest<T>(s: Seq<(Seq<char>, T)>, limit: nat)
    requires
        limit < s.len(),
    ensures
        evicted_by(s, limit).len() == s.len() - limit,
        keep_newest(s, limit).len() == limit,
        evicted_by(s, limit) + keep_newest(s, limit) == s,
        payloads(evicted_by(s, limit)).len() == s.len() - limit,
        forall|i: int| 0 <= i < s.len() - limit ==> evicted_by(s, limit)[i] == s[i],
        forall|i: int| 0 <= i < limit ==> keep_newest(s, limit)[i] == s[s.len() - limit + i],
{
    assert(evicted_by(s, limit) + keep_newest(s, limit) =~= s);
}

/// A cut at or above the current size removes nothing.
pub proof fn lemma_grow_evicts_nothing<T>(s: Seq<(Seq<char>, T)>, limit: nat)
    requires
        s.len() <= limit,
    ensures
        keep_newest(s, limit) == s,
        evicted_by(s, limit).len() == 0,
        payloads(evicted_by(s, limit)).len() == 0,
{
}

/// A cut to a bound the store already keeps changes nothing: cutting twice
/// to the same bound is cutting once.
pub proof fn lemma_keep_newest_settles<T>(s: Seq<(Seq<char>, T)>, limit: nat)
    ensures
        keep_newest(keep_newest(s, limit), limit) == keep_newest(s, limit),
{
}

/// A cut to a positive bound leaves a store within that bound, and every key
/// it keeps reads as before.
pub proof fn lemma_keep_newest_bounded<T>(s: Seq<(Seq<char>, T)>, limit: nat)
    requires
        distinct_keys(s),
        limit > 0,
    ensures
        bounded(keep_newest(s, limit), limit),
        forall|q: Seq<char>| #[trigger]
            has_key(keep_newest(s, limit), q) ==> value_of(keep_newest(s, limit), q) == value_of(
                s,
                q,
            ),
{
    let t = keep_newest(s, limit);
    if s.len() > limit {
        let d = s.len() - limit;
        assert forall|i: int| 0 <= i < t.len() implies #[trigger] t[i] == s[i + d] by {}
        assert forall|i: int, j: int| 0 <= i < j < t.len() implies (#[trigger] t[i]).0 != (
        #[trigger] t[j]).0 by {
            assert(t[i] == s[i + d] && t[j] == s[j + d]);
            assert(s[i + d].0 != s[j + d].0);
        }
        assert forall|q: Seq<char>| #[trigger] has_key(t, q) implies value_of(t, q) == value_of(
            s,
            q,
        ) by {
            let i = index_of(t, q);
            assert(t[i] == s[i + d]);
            lemma_index_of(t, i);
            lemma_index_of(s, i + d);
        }
    }
}

} // verus!
