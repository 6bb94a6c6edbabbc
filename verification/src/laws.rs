//! Laws of the statement cache, proved once over the pure transition
//! functions that the cache operations are specified with: a checkout
//! followed by a return never grows the cache beyond its capacity, a
//! returned statement is available again, a round trip over an entry that
//! was available keeps the occupancy unchanged, and a full cache evicts
//! exactly its least-recently-returned entry.

use vstd::prelude::*;

use crate::stmt_cache::{
    cache_contains, cache_index, cache_wf, spec_checkout, spec_return, CacheView, StmtCacheData,
};

verus! {

/// Checking an entry out preserves well-formedness and never grows the
/// cache.
pub proof fn lemma_checkout_preserves_wf(v: CacheView, key: Seq<char>, cap: nat)
    requires
        cache_wf(v, cap),
    ensures
        cache_wf(spec_checkout(v, key), cap),
        spec_checkout(v, key).len() <= v.len(),
        !cache_contains(spec_checkout(v, key), key),
{
    if cache_contains(v, key) {
        let k = cache_index(v, key);
        let res = v.remove(k);
        assert forall|i: int, j: int| 0 <= i < j < res.len() implies res[i].sql@ != res[j].sql@ by {
            let i2: int = if i < k {
                i
            } else {
                i + 1
            };
            let j2: int = if j < k {
                j
            } else {
                j + 1
            };
            assert(res[i] == v[i2]);
            assert(res[j] == v[j2]);
        }
        assert forall|i: int| 0 <= i < res.len() implies res[i].sql@ != key by {
            let i2: int = if i < k {
                i
            } else {
                i + 1
            };
            assert(res[i] == v[i2]);
        }
    }
}

/// Returning an entry preserves well-formedness: the occupancy never exceeds
/// the configured capacity.
pub proof fn lemma_return_preserves_wf(v: CacheView, d: StmtCacheData, cap: nat)
    requires
        cache_wf(v, cap),
    ensures
        cache_wf(spec_return(v, d, cap), cap),
{
    if !cache_contains(v, d.sql@) && cap > 0 {
        if v.len() >= cap {
            let res = v.drop_first().push(d);
            assert forall|i: int, j: int|
                0 <= i < j < res.len() implies res[i].sql@ != res[j].sql@ by {
                if j < res.len() - 1 {
                    assert(res[i] == v[i + 1]);
                    assert(res[j] == v[j + 1]);
                } else {
                    assert(res[j] == d);
                    assert(res[i] == v[i + 1]);
                }
            }
        } else {
            let res = v.push(d);
            assert forall|i: int, j: int|
                0 <= i < j < res.len() implies res[i].sql@ != res[j].sql@ by {
                if j == res.len() - 1 {
                    assert(res[j] == d);
                    assert(res[i] == v[i]);
                }
            }
        }
    }
}

/// A returned entry is available again afterwards (so the next request for
/// the same text is a cache hit, not a fresh prepare).
pub proof fn lemma_return_makes_available(v: CacheView, d: StmtCacheData, cap: nat)
    requires
        cache_wf(v, cap),
        cap > 0,
    ensures
        cache_contains(spec_return(v, d, cap), d.sql@),
{
    let res = spec_return(v, d, cap);
    if cache_contains(v, d.sql@) {
        assert(res == v);
    } else if v.len() >= cap {
        assert(res == v.drop_first().push(d));
        assert(res[res.len() - 1] == d);
    } else {
        assert(res == v.push(d));
        assert(res[res.len() - 1] == d);
    }
}

/// A full round trip over an entry that was available — check it out, use
/// it, return it — keeps the occupancy unchanged and the entry available:
/// what a failing execution checks out, it gives back, so the cache never
/// loses a slot.
pub proof fn lemma_roundtrip_keeps_occupancy(v: CacheView, d: StmtCacheData, cap: nat)
    requires
        cache_wf(v, cap),
        cap > 0,
        cache_contains(v, d.sql@),
    ensures
        spec_return(spec_checkout(v, d.sql@), d, cap).len() == v.len(),
        cache_contains(spec_return(spec_checkout(v, d.sql@), d, cap), d.sql@),
        cache_wf(spec_return(spec_checkout(v, d.sql@), d, cap), cap),
{
    lemma_checkout_preserves_wf(v, d.sql@, cap);
    let mid = spec_checkout(v, d.sql@);
    assert(mid.len() == v.len() - 1);
    lemma_return_preserves_wf(mid, d, cap);
    lemma_return_makes_available(mid, d, cap);
    assert(spec_return(mid, d, cap) == mid.push(d));
}

/// Checking out and returning, twice in a row, never exceeds the configured
/// capacity, whatever the two SQL texts are and whether or not they hit.
pub proof fn lemma_two_roundtrips_within_capacity(
    v: CacheView,
    d1: StmtCacheData,
    d2: StmtCacheData,
    cap: nat,
)
    requires
        cache_wf(v, cap),
    ensures
        ({
            let v1 = spec_return(spec_checkout(v, d1.sql@), d1, cap);
            let v2 = spec_return(spec_checkout(v1, d2.sql@), d2, cap);
            &&& v1.len() <= cap
            &&& v2.len() <= cap
            &&& cache_wf(v2, cap)
        }),
{
    lemma_checkout_preserves_wf(v, d1.sql@, cap);
    lemma_return_preserves_wf(spec_checkout(v, d1.sql@), d1, cap);
    let v1 = spec_return(spec_checkout(v, d1.sql@), d1, cap);
    lemma_checkout_preserves_wf(v1, d2.sql@, cap);
    lemma_return_preserves_wf(spec_checkout(v1, d2.sql@), d2, cap);
}

/// Returning a distinct text to a full cache evicts exactly the
/// least-recently-returned entry: the new text becomes available, the
/// front entry's text stops being available, every other text is untouched.
pub proof fn lemma_full_cache_evicts_least_recently_returned(
    v: CacheView,
    d: StmtCacheData,
    cap: nat,
)
    requires
        cache_wf(v, cap),
        cap > 0,
        v.len() == cap,
        !cache_contains(v, d.sql@),
    ensures
        spec_return(v, d, cap) == v.drop_first().push(d),
        cache_contains(spec_return(v, d, cap), d.sql@),
        !cache_contains(spec_return(v, d, cap), v[0].sql@),
        forall|key: Seq<char>|
            #[trigger] cache_contains(spec_return(v, d, cap), key) <==> ((cache_contains(v, key)
                && key != v[0].sql@) || key == d.sql@),
{
    let res = spec_return(v, d, cap);
    assert(res == v.drop_first().push(d));
    assert(res[res.len() - 1] == d);
    assert forall|key: Seq<char>| #[trigger]
        cache_contains(res, key) <==> ((cache_contains(v, key) && key != v[0].sql@) || key
            == d.sql@) by {
        if cache_contains(res, key) {
            let i = choose|i: int| 0 <= i < res.len() && res[i].sql@ == key;
            if i < res.len() - 1 {
                assert(res[i] == v[i + 1]);
                assert(cache_contains(v, key));
                assert(v[i + 1].sql@ != v[0].sql@);
            } else {
                assert(res[i] == d);
            }
        }
        if cache_contains(v, key) && key != v[0].sql@ {
            let i = choose|i: int| 0 <= i < v.len() && v[i].sql@ == key;
            assert(i != 0);
            assert(res[i - 1] == v[i]);
            assert(cache_contains(res, key));
        }
        if key == d.sql@ {
            assert(cache_contains(res, key));
        }
    }
}

} // verus!
