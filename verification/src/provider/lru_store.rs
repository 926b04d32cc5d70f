//! The recency order of the store is kept by `lru::LruCache`, which maps each
//! key to the handle of its payload. Here the type is declared, what a cache
//! holds is named, and each method the client calls is given a contract.
//! Nothing here is proved: the contracts restate the crate's documented
//! behaviour.

use vstd::prelude::*;
use lru::LruCache;
use std::num::NonZeroUsize;
use crate::provider::assoc::value_of;
use crate::provider::recency::{displaced, keep_newest, pushed, touched};

verus! {

/// `lru::LruCache`, taken as it is: nothing is known of a cache but what the
/// two names below say of it.
#[verifier::external_type_specification]
#[verifier::external_body]
#[verifier::reject_recursive_types(K)]
#[verifier::reject_recursive_types(V)]
#[verifier::reject_recursive_types(S)]
pub struct ExLruCache<K, V, S>(LruCache<K, V, S>);

/// `lru::DefaultHasher`, the hasher an `LruCache` has unless it is given
/// another. Nothing is said of it.
#[verifier::external_type_specification]
#[verifier::external_body]
pub struct ExDefaultHasher(lru::DefaultHasher);

/// The pairs a cache holds, from the least to the most recently used.
pub uninterp spec fn lru_entries(cache: &LruCache<&'static str, usize>) -> Seq<(Seq<char>, usize)>;

/// The number of pairs a cache may hold at most.
pub uninterp spec fn lru_limit(cache: &LruCache<&'static str, usize>) -> nat;

/// `LruCache::unbounded`: an empty cache whose bound is `usize::MAX`. No
/// table is reserved up front.
#[verifier::external_body]
pub(crate) fn lru_unbounded() -> (cache: LruCache<&'static str, usize>)
    ensures
        lru_entries(&cache) == Seq::<(Seq<char>, usize)>::empty(),
        lru_limit(&cache) == usize::MAX,
{
    LruCache::unbounded()
}

/// `LruCache::cap`: the bound the cache currently has.
#[verifier::external_body]
pub(crate) fn lru_cap(cache: &LruCache<&'static str, usize>) -> (cap: usize)
    ensures
        cap == lru_limit(cache),
{
    cache.cap().get()
}

/// `LruCache::len`: the number of pairs held.
#[verifier::external_body]
pub(crate) fn lru_len(cache: &LruCache<&'static str, usize>) -> (len: usize)
    ensures
        len == lru_entries(cache).len(),
{
    cache.len()
}

/// `LruCache::get`: the handle under `key`, if there is one; that pair
/// moves to the most recently used end and the bound stays.
#[verifier::external_body]
pub(crate) fn lru_get(cache: &mut LruCache<&'static str, usize>, key: &'static str) -> (value:
    Option<usize>)
    ensures
        value == value_of(lru_entries(old(cache)), key@),
        lru_entries(final(cache)) == touched(lru_entries(old(cache)), key@),
        lru_limit(final(cache)) == lru_limit(old(cache)),
{
    cache.get(&key).copied()
}

/// `LruCache::push`: writes the pair as the most recently used one and
/// hands back the handle of the pair that left for it. A pair with the same
/// key is replaced; otherwise a full cache first drops its least recently
/// used pair. The bound stays.
#[verifier::external_body]
pub(crate) fn lru_push(
    cache: &mut LruCache<&'static str, usize>,
    key: &'static str,
    value: usize,
) -> (gone: Option<usize>)
    ensures
        gone == displaced(lru_entries(old(cache)), lru_limit(old(cache)), key@),
        lru_entries(final(cache)) == pushed(
            lru_entries(old(cache)),
            lru_limit(old(cache)),
            key@,
            value,
        ),
        lru_limit(final(cache)) == lru_limit(old(cache)),
{
    cache.push(key, value).map(|pair| pair.1)
}

/// `LruCache::pop_lru`: takes the least recently used pair out and hands
/// back its handle; an empty cache stays as it is. The bound stays.
#[verifier::external_body]
pub(crate) fn lru_pop_lru(cache: &mut LruCache<&'static str, usize>) -> (gone: Option<usize>)
    ensures
        gone == if lru_entries(old(cache)).len() > 0 {
            Some(lru_entries(old(cache))[0].1)
        } else {
            None
        },
        lru_entries(final(cache)) == if lru_entries(old(cache)).len() > 0 {
            lru_entries(old(cache)).drop_first()
        } else {
            lru_entries(old(cache))
        },
        lru_limit(final(cache)) == lru_limit(old(cache)),
{
    cache.pop_lru().map(|pair| pair.1)
}

/// `LruCache::resize`: sets the bound to `cap`; pairs beyond it are dropped
/// from the least recently used end.
#[verifier::external_body]
pub(crate) fn lru_resize(cache: &mut LruCache<&'static str, usize>, cap: usize)
    requires
        cap > 0,
    ensures
        lru_entries(final(cache)) == keep_newest(lru_entries(old(cache)), cap as nat),
        lru_limit(final(cache)) == cap,
{
    cache.resize(NonZeroUsize::new(cap).unwrap())
}

} // verus!
