//! How the recency order and the slab make up the store: the order keeps a
//! handle for each key, the slab keeps the payload of each handle.

use vstd::prelude::*;
use crate::provider::assoc::{distinct_keys, has_key, index_of, lemma_index_of, value_of};
use crate::provider::recency::{bounded, displaced, pushed, touched};

verus! {

/// The entries with each handle replaced by the payload it stands for.
pub open spec fn resolved<V>(e: Seq<(Seq<char>, usize)>, m: Map<usize, V>) -> Seq<(Seq<char>, V)> {
    Seq::new(e.len(), |i: int| (e[i].0, m[e[i].1]))
}

/// Every entry has a handle of its own, and the slab holds a payload for it.
pub open spec fn linked<V>(e: Seq<(Seq<char>, usize)>, m: Map<usize, V>) -> bool {
    &&& forall|i: int| 0 <= i < e.len() ==> m.contains_key((#[trigger] e[i]).1)
    &&& forall|i: int, j: int| 0 <= i < j < e.len() ==> (#[trigger] e[i]).1 != (#[trigger] e[j]).1
}

/// The payload a handle stands for, if there is a handle.
pub open spec fn payload_of<V>(handle: Option<usize>, m: Map<usize, V>) -> Option<V> {
    match handle {
        Some(h) => Some(m[h]),
        None => None,
    }
}

/// Resolving the handles keeps the keys where they are.
pub proof fn lemma_resolved_keys<V>(e: Seq<(Seq<char>, usize)>, m: Map<usize, V>, k: Seq<char>)
    ensures
        resolved(e, m).len() == e.len(),
        has_key(resolved(e, m), k) == has_key(e, k),
        distinct_keys(e) ==> distinct_keys(resolved(e, m)),
        distinct_keys(e) && has_key(e, k) ==> index_of(resolved(e, m), k) == index_of(e, k),
        distinct_keys(e) ==> value_of(resolved(e, m), k) == payload_of(value_of(e, k), m),
{
    let r = resolved(e, m);
    if has_key(e, k) {
        let i = index_of(e, k);
        assert(r[i].0 == k);
    }
    if has_key(r, k) {
        let i = index_of(r, k);
        assert(e[i].0 == k);
    }
    if distinct_keys(e) {
        assert forall|i: int, j: int| 0 <= i < j < r.len() implies (#[trigger] r[i]).0 != (
        #[trigger] r[j]).0 by {
            assert(e[i].0 != e[j].0);
        }
        if has_key(e, k) {
            let i = index_of(e, k);
            assert(r[i].0 == k);
            lemma_index_of(r, i);
        }
    }
}

/// Moving the entry at `i` to the most recently used end moves its payload
/// along.
pub proof fn lemma_resolved_moved<V>(e: Seq<(Seq<char>, usize)>, m: Map<usize, V>, i: int)
    requires
        linked(e, m),
        0 <= i < e.len(),
    ensures
        resolved(e.remove(i).push(e[i]), m) == resolved(e, m).remove(i).push(resolved(e, m)[i]),
        linked(e.remove(i).push(e[i]), m),
{
    let e2 = e.remove(i).push(e[i]);
    let r = resolved(e, m);
    assert forall|a: int| 0 <= a < e2.len() implies #[trigger] e2[a] == e[if a == e.len() - 1 {
        i
    } else if a < i {
        a
    } else {
        a + 1
    }] by {}
    assert(resolved(e2, m) =~= r.remove(i).push(r[i]));
    assert forall|a: int, b: int| 0 <= a < b < e2.len() implies (#[trigger] e2[a]).1 != (
    #[trigger] e2[b]).1 by {
        let a2 = if a == e.len() - 1 { i } else if a < i { a } else { a + 1 };
        let b2 = if b == e.len() - 1 { i } else if b < i { b } else { b + 1 };
        assert(e2[a] == e[a2] && e2[b] == e[b2]);
        if a2 < b2 {
            assert(e[a2].1 != e[b2].1);
        } else {
            assert(e[b2].1 != e[a2].1);
        }
    }
    assert forall|a: int| 0 <= a < e2.len() implies m.contains_key((#[trigger] e2[a]).1) by {
        let a2 = if a == e.len() - 1 { i } else if a < i { a } else { a + 1 };
        assert(e2[a] == e[a2]);
    }
}

/// Taking the entry at `i` out and its payload with it leaves the other
/// entries with their payloads.
pub proof fn lemma_resolved_removed<V>(e: Seq<(Seq<char>, usize)>, m: Map<usize, V>, i: int)
    requires
        linked(e, m),
        0 <= i < e.len(),
    ensures
        m.contains_key(e[i].1),
        resolved(e.remove(i), m.remove(e[i].1)) == resolved(e, m).remove(i),
        linked(e.remove(i), m.remove(e[i].1)),
        resolved(e.remove(i), m) == resolved(e, m).remove(i),
        linked(e.remove(i), m),
{
    let e2 = e.remove(i);
    let m2 = m.remove(e[i].1);
    let r = resolved(e, m);
    assert forall|a: int| 0 <= a < e2.len() implies #[trigger] e2[a] == e[if a < i {
        a
    } else {
        a + 1
    }] && e2[a].1 != e[i].1 && m.contains_key(e2[a].1) by {
        let a2 = if a < i { a } else { a + 1 };
        assert(e2[a] == e[a2]);
        if a2 < i {
            assert(e[a2].1 != e[i].1);
        } else {
            assert(e[i].1 != e[a2].1);
        }
    }
    assert(resolved(e2, m2) =~= r.remove(i));
    assert(resolved(e2, m) =~= r.remove(i));
    assert forall|a: int, b: int| 0 <= a < b < e2.len() implies (#[trigger] e2[a]).1 != (
    #[trigger] e2[b]).1 by {
        let a2 = if a < i { a } else { a + 1 };
        let b2 = if b < i { b } else { b + 1 };
        assert(e2[a] == e[a2] && e2[b] == e[b2]);
        assert(e[a2].1 != e[b2].1);
    }
}

/// An entry appended under a handle the slab did not hold brings its payload.
pub proof fn lemma_resolved_appended<V>(
    e: Seq<(Seq<char>, usize)>,
    m: Map<usize, V>,
    k: Seq<char>,
    h: usize,
    v: V,
)
    requires
        linked(e, m),
        !m.contains_key(h),
    ensures
        resolved(e.push((k, h)), m.insert(h, v)) == resolved(e, m).push((k, v)),
        linked(e.push((k, h)), m.insert(h, v)),
{
    let e2 = e.push((k, h));
    let m2 = m.insert(h, v);
    assert forall|a: int| 0 <= a < e.len() implies #[trigger] e2[a] == e[a] && e[a].1 != h
        && m2.contains_key(e[a].1) by {}
    assert(resolved(e2, m2) =~= resolved(e, m).push((k, v)));
    assert forall|a: int, b: int| 0 <= a < b < e2.len() implies (#[trigger] e2[a]).1 != (
    #[trigger] e2[b]).1 by {
        assert(e2[a] == e[a]);
        if b < e.len() {
            assert(e2[b] == e[b]);
        }
    }
    assert forall|a: int| 0 <= a < e2.len() implies m2.contains_key((#[trigger] e2[a]).1) by {
        if a < e.len() {
            assert(e2[a] == e[a]);
        }
    }
}

/// A read moves the payload with its handle.
pub proof fn lemma_resolved_touched<V>(e: Seq<(Seq<char>, usize)>, m: Map<usize, V>, k: Seq<char>)
    requires
        distinct_keys(e),
        linked(e, m),
    ensures
        resolved(touched(e, k), m) == touched(resolved(e, m), k),
        linked(touched(e, k), m),
{
    lemma_resolved_keys(e, m, k);
    if has_key(e, k) {
        lemma_resolved_moved(e, m, index_of(e, k));
    }
}

/// A write under a fresh handle `h`: once the payload `v` is put under `h`
/// and the payload of the handle that left the order is taken out, the store
/// is the old store with `(k, v)` written to it.
pub proof fn lemma_resolved_pushed<V>(
    e: Seq<(Seq<char>, usize)>,
    m: Map<usize, V>,
    limit: nat,
    k: Seq<char>,
    h: usize,
    v: V,
)
    requires
        bounded(e, limit),
        linked(e, m),
        !m.contains_key(h),
    ensures
        displaced(resolved(e, m), limit, k) == payload_of(displaced(e, limit, k), m),
        match displaced(e, limit, k) {
            Some(g) => {
                &&& g != h
                &&& m.contains_key(g)
                &&& resolved(pushed(e, limit, k, h), m.insert(h, v).remove(g)) == pushed(
                    resolved(e, m),
                    limit,
                    k,
                    v,
                )
                &&& linked(pushed(e, limit, k, h), m.insert(h, v).remove(g))
            },
            None => {
                &&& resolved(pushed(e, limit, k, h), m.insert(h, v)) == pushed(
                    resolved(e, m),
                    limit,
                    k,
                    v,
                )
                &&& linked(pushed(e, limit, k, h), m.insert(h, v))
            },
        },
{
    lemma_resolved_keys(e, m, k);
    let r = resolved(e, m);
    if has_key(e, k) || e.len() >= limit {
        let i = if has_key(e, k) {
            index_of(e, k)
        } else {
            0
        };
        assert(e.drop_first() =~= e.remove(0));
        assert(r.drop_first() =~= r.remove(0));
        let g = e[i].1;
        assert(displaced(e, limit, k) == Some(g));
        lemma_resolved_removed(e, m, i);
        lemma_resolved_appended(e.remove(i), m.remove(g), k, h, v);
        assert(m.remove(g).insert(h, v) =~= m.insert(h, v).remove(g));
    } else {
        lemma_resolved_appended(e, m, k, h, v);
    }
}

} // verus!
