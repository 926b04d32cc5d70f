//! Sequences of `(key, value)` pairs read as tables: the vocabulary that the
//! store, the fetch table and the cursor table share.

use vstd::prelude::*;

verus! {

/// Some pair of `s` has the key `k`.
pub open spec fn has_key<T>(s: Seq<(Seq<char>, T)>, k: Seq<char>) -> bool {
    exists|i: int| 0 <= i < s.len() && (#[trigger] s[i]).0 == k
}

/// The place of a pair with key `k` in `s`, where `has_key(s, k)`.
pub open spec fn index_of<T>(s: Seq<(Seq<char>, T)>, k: Seq<char>) -> int {
    choose|i: int| 0 <= i < s.len() && (#[trigger] s[i]).0 == k
}

/// No key occurs twice.
pub open spec fn distinct_keys<T>(s: Seq<(Seq<char>, T)>) -> bool {
    forall|i: int, j: int| 0 <= i < j < s.len() ==> (#[trigger] s[i]).0 != (#[trigger] s[j]).0
}

/// The value stored under `k`, if any.
pub open spec fn value_of<T>(s: Seq<(Seq<char>, T)>, k: Seq<char>) -> Option<T> {
    if has_key(s, k) {
        Some(s[index_of(s, k)].1)
    } else {
        None
    }
}

/// The pairs of `s` as a map from key to value.
pub open spec fn table_of<T>(s: Seq<(Seq<char>, T)>) -> Map<Seq<char>, T> {
    Map::new(|k: Seq<char>| has_key(s, k), |k: Seq<char>| s[index_of(s, k)].1)
}

/// With distinct keys, a key is found exactly where it stands.
pub proof fn lemma_index_of<T>(s: Seq<(Seq<char>, T)>, i: int)
    requires
        distinct_keys(s),
        0 <= i < s.len(),
    ensures
        has_key(s, s[i].0),
        index_of(s, s[i].0) == i,
        value_of(s, s[i].0) == Some(s[i].1),
        table_of(s).contains_key(s[i].0),
        table_of(s)[s[i].0] == s[i].1,
{
    let k = s[i].0;
    assert(has_key(s, k));
    let j = index_of(s, k);
    assert(0 <= j < s.len() && s[j].0 == k);
    if j < i {
        assert(s[j].0 != s[i].0);
    } else if i < j {
        assert(s[i].0 != s[j].0);
    }
}

/// A pair appended under a fresh key extends the table by that key.
pub proof fn lemma_table_push<T>(s: Seq<(Seq<char>, T)>, k: Seq<char>, v: T)
    requires
        distinct_keys(s),
        !has_key(s, k),
    ensures
        distinct_keys(s.push((k, v))),
        table_of(s.push((k, v))) == table_of(s).insert(k, v),
{
    let t = s.push((k, v));
    assert forall|i: int, j: int| 0 <= i < j < t.len() implies (#[trigger] t[i]).0 != (
    #[trigger] t[j]).0 by {
        assert(t[i] == s[i]);
        if j < s.len() {
            assert(t[j] == s[j]);
        }
    }
    assert forall|q: Seq<char>| #[trigger]
        table_of(t).contains_key(q) == table_of(s).insert(k, v).contains_key(q) by {
        if has_key(t, q) {
            let i = index_of(t, q);
            if i < s.len() {
                assert(s[i].0 == q);
            }
        }
        if has_key(s, q) {
            let i = index_of(s, q);
            assert(t[i].0 == q);
        }
        if q == k {
            assert(t[s.len() as int].0 == k);
        }
    }
    assert forall|q: Seq<char>| #[trigger] table_of(t).contains_key(q) implies table_of(t)[q]
        == table_of(s).insert(k, v)[q] by {
        let i = index_of(t, q);
        lemma_index_of(t, i);
        if i < s.len() {
            assert(s[i] == t[i]);
            lemma_index_of(s, i);
        }
    }
    assert(table_of(t) =~= table_of(s).insert(k, v));
}

/// Taking a pair out takes its key out of the table and leaves the rest.
pub proof fn lemma_table_remove<T>(s: Seq<(Seq<char>, T)>, i: int)
    requires
        distinct_keys(s),
        0 <= i < s.len(),
    ensures
        distinct_keys(s.remove(i)),
        !has_key(s.remove(i), s[i].0),
        table_of(s.remove(i)) == table_of(s).remove(s[i].0),
{
    let t = s.remove(i);
    let k = s[i].0;
    assert forall|a: int| 0 <= a < t.len() implies #[trigger] t[a] == s[if a < i {
        a
    } else {
        a + 1
    }] by {}
    assert forall|a: int, b: int| 0 <= a < b < t.len() implies (#[trigger] t[a]).0 != (
    #[trigger] t[b]).0 by {
        let a2 = if a < i { a } else { a + 1 };
        let b2 = if b < i { b } else { b + 1 };
        assert(t[a] == s[a2] && t[b] == s[b2]);
        assert(s[a2].0 != s[b2].0);
    }
    if has_key(t, k) {
        let a = index_of(t, k);
        let a2 = if a < i { a } else { a + 1 };
        assert(t[a] == s[a2]);
        if a2 < i {
            assert(s[a2].0 != s[i].0);
        } else {
            assert(s[i].0 != s[a2].0);
        }
    }
    assert forall|q: Seq<char>| #[trigger]
        table_of(t).contains_key(q) == table_of(s).remove(k).contains_key(q) by {
        if has_key(t, q) {
            let a = index_of(t, q);
            let a2 = if a < i { a } else { a + 1 };
            assert(t[a] == s[a2]);
            assert(s[a2].0 == q);
        }
        if has_key(s, q) && q != k {
            let b = index_of(s, q);
            let b2 = if b < i { b } else { b - 1 };
            assert(t[b2] == s[b]);
            assert(t[b2].0 == q);
        }
    }
    assert forall|q: Seq<char>| #[trigger] table_of(t).contains_key(q) implies table_of(t)[q]
        == table_of(s).remove(k)[q] by {
        let a = index_of(t, q);
        let a2 = if a < i { a } else { a + 1 };
        assert(t[a] == s[a2]);
        lemma_index_of(t, a);
        lemma_index_of(s, a2);
    }
    assert(table_of(t) =~= table_of(s).remove(k));
}

/// Reading a key from the pairs and reading it from the table agree.
pub proof fn lemma_value_of_table<T>(s: Seq<(Seq<char>, T)>, k: Seq<char>)
    ensures
        value_of(s, k) == if table_of(s).contains_key(k) {
            Some(table_of(s)[k])
        } else {
            None
        },
{
}

} // verus!
