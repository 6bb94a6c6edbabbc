//! The bounded statement cache.
//!
//! The cache maps SQL text (exact byte match, no normalization) to a prepared
//! statement.  An entry that is handed out by [`StmtCache::get_or_prepare`] is
//! *checked out*: it leaves the available set entirely, so a second request
//! for the same text while the first is in flight prepares a fresh statement
//! instead of sharing the checked-out one.  Returning an entry with
//! [`StmtCache::insert_and_close`] reinserts it as most recently used; when
//! the cache is full the least-recently-returned available entry is evicted
//! and its backend statement dropped.
//!
//! The operations are specified through pure transition functions
//! ([`spec_checkout`], [`checkout_events`], [`spec_return`],
//! [`return_events`]) so that laws about sequences of cache operations can be
//! stated and proved once, at the specification level.

use vstd::prelude::*;
use vstd::assert_seqs_equal;

use crate::client::{BackendEvent, FirebirdClient};
use crate::statement::StatementData;
use crate::types::{DbHandle, Dialect, FbError, FreeStmtOp, StmtHandle, TrHandle};

verus! {

/// One cache entry: the SQL text it is keyed by, and the prepared statement.
pub struct StmtCacheData {
    pub sql: String,
    pub stmt: StatementData,
}

/// The contents of a statement cache, ordered from least recently returned
/// (front) to most recently returned (back).
pub type CacheView = Seq<StmtCacheData>;

/// Whether some available entry is keyed by `key`.
pub open spec fn cache_contains(v: CacheView, key: Seq<char>) -> bool {
    exists|i: int| 0 <= i < v.len() && v[i].sql@ == key
}

/// The position of the entry keyed by `key` (unique when the cache is well
/// formed).
pub open spec fn cache_index(v: CacheView, key: Seq<char>) -> int {
    choose|i: int| 0 <= i < v.len() && v[i].sql@ == key
}

/// Keys are pairwise distinct and the occupancy never exceeds the capacity.
pub open spec fn cache_wf(v: CacheView, cap: nat) -> bool {
    &&& v.len() <= cap
    &&& forall|i: int, j: int| 0 <= i < j < v.len() ==> v[i].sql@ != v[j].sql@
}

/// The available set after a checkout of `key`: on a hit the entry leaves the
/// cache, on a miss nothing changes (the new statement is prepared outside
/// the cache and not counted until it is returned).
pub open spec fn spec_checkout(v: CacheView, key: Seq<char>) -> CacheView {
    if cache_contains(v, key) {
        v.remove(cache_index(v, key))
    } else {
        v
    }
}

/// The successful preparation of the statement `d` now stands for.
pub open spec fn prepare_ok_event(
    db: DbHandle,
    tr: TrHandle,
    dialect: Dialect,
    key: Seq<char>,
    d: StmtCacheData,
) -> BackendEvent {
    BackendEvent::Prepare(db, tr, dialect, key, Ok((d.stmt.stmt_type, d.stmt.handle)))
}

/// The backend calls a *successful* checkout makes: none on a hit, exactly
/// the preparation of `d` on a miss.
pub open spec fn checkout_events(
    v: CacheView,
    key: Seq<char>,
    db: DbHandle,
    tr: TrHandle,
    dialect: Dialect,
    d: StmtCacheData,
) -> Seq<BackendEvent> {
    if cache_contains(v, key) {
        Seq::empty()
    } else {
        seq![prepare_ok_event(db, tr, dialect, key, d)]
    }
}

/// The available set after `d` is returned: a redundant entry (same key
/// already available) is not kept, a full cache first evicts the least
/// recently returned entry, otherwise `d` becomes the most recently used.
pub open spec fn spec_return(v: CacheView, d: StmtCacheData, cap: nat) -> CacheView {
    if cache_contains(v, d.sql@) || cap == 0 {
        v
    } else if v.len() >= cap {
        v.drop_first().push(d)
    } else {
        v.push(d)
    }
}

/// The backend calls a return makes, with `res` the outcome of the one close
/// it can involve: dropping the redundant incoming statement, or dropping
/// the evicted one, or nothing.
pub open spec fn return_events(
    v: CacheView,
    d: StmtCacheData,
    cap: nat,
    res: Result<(), FbError>,
) -> Seq<BackendEvent> {
    if cache_contains(v, d.sql@) || cap == 0 {
        seq![BackendEvent::Free(d.stmt.handle, FreeStmtOp::Drop, res)]
    } else if v.len() >= cap {
        seq![BackendEvent::Free(v[0].stmt.handle, FreeStmtOp::Drop, res)]
    } else {
        Seq::empty()
    }
}

/// Whether `e` records that the statement `h` was dropped (with whatever
/// outcome).
pub open spec fn is_free_drop(e: BackendEvent, h: StmtHandle) -> bool {
    match e {
        BackendEvent::Free(h2, op, _) => h2 == h && op == FreeStmtOp::Drop,
        _ => false,
    }
}

/// `post` extends `pre` by exactly one drop per entry of `v`, in cache
/// order; the individual close outcomes are free (they are swallowed).
pub open spec fn closes_entries(
    pre: Seq<BackendEvent>,
    post: Seq<BackendEvent>,
    v: CacheView,
) -> bool {
    &&& post.len() == pre.len() + v.len()
    &&& post.take(pre.len() as int) == pre
    &&& forall|i: int|
        0 <= i < v.len() ==> is_free_drop(#[trigger] post[pre.len() + i], v[i].stmt.handle)
}

/// Bounded mapping from SQL text to prepared statements, least recently
/// returned first.
pub struct StmtCache {
    capacity: usize,
    entries: Vec<StmtCacheData>,
}

impl View for StmtCache {
    type V = CacheView;

    closed spec fn view(&self) -> CacheView {
        self.entries@
    }
}

impl StmtCache {
    /// The configured capacity.
    pub closed spec fn cap(&self) -> nat {
        self.capacity as nat
    }

    /// Keys distinct, occupancy within capacity.
    pub open spec fn wf(&self) -> bool {
        cache_wf(self@, self.cap())
    }

    /// An empty cache with the given capacity.
    pub fn new(capacity: usize) -> (r: StmtCache)
        ensures
            r@ == Seq::<StmtCacheData>::empty(),
            r.cap() == capacity as nat,
            r.wf(),
    {
        StmtCache { capacity, entries: Vec::new() }
    }

    /// The position of the available entry keyed by `sql`, if any.
    fn index_of(&self, sql: &String) -> (r: Option<usize>)
        ensures
            match r {
                Some(i) => {
                    &&& i < self@.len()
                    &&& self@[i as int].sql@ == sql@
                    &&& cache_contains(self@, sql@)
                },
                None => !cache_contains(self@, sql@),
            },
    {
        let n = self.entries.len();
        let mut i: usize = 0;
        while i < n
            invariant
                n == self.entries@.len(),
                0 <= i <= n,
                forall|j: int| 0 <= j < i ==> self.entries@[j].sql@ != sql@,
            decreases n - i,
        {
            if self.entries[i].sql == *sql {
                return Some(i);
            }
            i += 1;
        }
        None
    }

    /// Whether an available entry is keyed by `sql`.
    pub fn contains_key(&self, sql: &String) -> (r: bool)
        ensures
            r == cache_contains(self@, sql@),
    {
        self.index_of(sql).is_some()
    }

    /// Removes and returns the available entry keyed by `sql`, if any.
    fn get(&mut self, sql: &String) -> (r: Option<StmtCacheData>)
        requires
            old(self).wf(),
        ensures
            final(self).wf(),
            final(self).cap() == old(self).cap(),
            final(self)@ == spec_checkout(old(self)@, sql@),
            match r {
                Some(d) => {
                    &&& cache_contains(old(self)@, sql@)
                    &&& d.sql@ == sql@
                    &&& d.stmt == old(self)@[cache_index(old(self)@, sql@)].stmt
                },
                None => !cache_contains(old(self)@, sql@),
            },
    {
        let ghost v0 = self@;
        match self.index_of(sql) {
            Some(i) => {
                proof {
                    let k = cache_index(v0, sql@);
                    assert(0 <= k < v0.len() && v0[k].sql@ == sql@);
                    assert(k == i as int);
                }
                let d = self.entries.remove(i);
                Some(d)
            },
            None => None,
        }
    }

    /// Exact-match lookup among the available entries.  On a hit the entry is
    /// checked out with no backend round trip; on a miss a new statement is
    /// prepared under the given transaction and handed out checked out, the
    /// cache itself unchanged.  The result mirrors the preparation: its
    /// statement is exactly the one the recorded prepare returned, and a
    /// preparation failure is handed on unchanged.
    pub fn get_or_prepare<C: FirebirdClient>(
        &mut self,
        cli: &mut C,
        db: DbHandle,
        tr: TrHandle,
        dialect: Dialect,
        sql: &str,
        named_params: bool,
    ) -> (r: Result<StmtCacheData, FbError>)
        requires
            old(self).wf(),
        ensures
            final(self).wf(),
            final(self).cap() == old(self).cap(),
            final(self)@ == spec_checkout(old(self)@, sql@),
            cache_contains(old(self)@, sql@) ==> r is Ok,
            match r {
                Ok(d) => {
                    &&& d.sql@ == sql@
                    &&& if cache_contains(old(self)@, sql@) {
                        &&& d.stmt == old(self)@[cache_index(old(self)@, sql@)].stmt
                        &&& final(cli).events() == old(cli).events()
                    } else {
                        &&& d.stmt.named_params == named_params
                        &&& final(cli).events() == old(cli).events().push(
                            prepare_ok_event(db, tr, dialect, sql@, d),
                        )
                    }
                },
                Err(e) => {
                    &&& !cache_contains(old(self)@, sql@)
                    &&& final(cli).events() == old(cli).events().push(
                        BackendEvent::Prepare(db, tr, dialect, sql@, Err(e)),
                    )
                },
            },
    {
        let owned: String = sql.to_owned();
        match self.get(&owned) {
            Some(d) => Ok(d),
            None => {
                match cli.prepare_statement(db, tr, dialect, sql) {
                    Ok((stmt_type, handle)) => Ok(
                        StmtCacheData {
                            sql: owned,
                            stmt: StatementData { stmt_type, handle, named_params },
                        },
                    ),
                    Err(e) => Err(e),
                }
            },
        }
    }

    /// Returns a checked-out entry to the available set.  A redundant entry
    /// (its key already available again) is closed instead of kept; a full
    /// cache first evicts and closes the least recently returned entry.  A
    /// failing backend close is reported (the result is exactly the outcome
    /// of the one close made, `Ok` when none was), but the bookkeeping
    /// proceeds regardless, so no capacity is leaked.
    pub fn insert_and_close<C: FirebirdClient>(&mut self, cli: &mut C, data: StmtCacheData) -> (r:
        Result<(), FbError>)
        requires
            old(self).wf(),
        ensures
            final(self).wf(),
            final(self).cap() == old(self).cap(),
            final(self)@ == spec_return(old(self)@, data, old(self).cap()),
            final(cli).events() == old(cli).events() + return_events(
                old(self)@,
                data,
                old(self).cap(),
                r,
            ),
            return_events(old(self)@, data, old(self).cap(), r).len() == 0 ==> r == Ok::<
                (),
                FbError,
            >(()),
    {
        let ghost v0 = self@;
        let ghost cap0 = self.cap();
        let ghost ev0 = cli.events();
        if self.contains_key(&data.sql) {
            let cr = data.stmt.close(cli);
            proof {
                assert_seqs_equal!(cli.events() == ev0 + return_events(v0, data, cap0, cr));
            }
            return cr;
        }
        if self.capacity == 0 {
            let cr = data.stmt.close(cli);
            proof {
                assert_seqs_equal!(cli.events() == ev0 + return_events(v0, data, cap0, cr));
            }
            return cr;
        }
        let mut res: Result<(), FbError> = Ok(());
        if self.entries.len() >= self.capacity {
            let lru = self.entries.remove(0);
            res = lru.stmt.close(cli);
            proof {
                assert_seqs_equal!(self.entries@ == v0.drop_first());
                assert_seqs_equal!(cli.events() == ev0 + return_events(v0, data, cap0, res));
            }
        } else {
            proof {
                assert_seqs_equal!(cli.events() == ev0 + return_events(v0, data, cap0, res));
            }
        }
        self.entries.push(data);
        proof {
            if v0.len() >= cap0 {
                assert(self@ =~= v0.drop_first().push(data));
                assert forall|i: int, j: int|
                    0 <= i < j < self@.len() implies self@[i].sql@ != self@[j].sql@ by {
                    if j < self@.len() - 1 {
                        assert(self@[i] == v0[i + 1]);
                        assert(self@[j] == v0[j + 1]);
                    } else {
                        assert(self@[j] == data);
                        assert(self@[i] == v0[i + 1]);
                        assert(!cache_contains(v0, data.sql@));
                    }
                }
            } else {
                assert(self@ =~= v0.push(data));
                assert forall|i: int, j: int|
                    0 <= i < j < self@.len() implies self@[i].sql@ != self@[j].sql@ by {
                    if j == self@.len() - 1 {
                        assert(self@[j] == data);
                        assert(!cache_contains(v0, data.sql@));
                        assert(self@[i] == v0[i]);
                    }
                }
            }
        }
        res
    }

    /// Closes every available entry, emptying the cache: one drop per entry,
    /// in cache order.  Backend close failures are swallowed (this is the
    /// teardown path of a closing connection).
    pub fn close_all<C: FirebirdClient>(&mut self, cli: &mut C)
        ensures
            final(self)@ == Seq::<StmtCacheData>::empty(),
            final(self).cap() == old(self).cap(),
            final(self).wf(),
            closes_entries(old(cli).events(), final(cli).events(), old(self)@),
    {
        let ghost v0 = self@;
        let ghost ev0 = cli.events();
        let ghost n = v0.len() as int;
        proof {
            assert_seqs_equal!(v0.skip(0) == v0);
            assert_seqs_equal!(cli.events().take(ev0.len() as int) == ev0);
        }
        while self.entries.len() > 0
            invariant
                self.cap() == old(self).cap(),
                n == v0.len() as int,
                self.entries@.len() <= n,
                self.entries@ == v0.skip(n - self.entries@.len()),
                cli.events().len() == ev0.len() + n - self.entries@.len(),
                cli.events().take(ev0.len() as int) == ev0,
                forall|i: int|
                    0 <= i < n - self.entries@.len() ==> is_free_drop(
                        #[trigger] cli.events()[ev0.len() + i],
                        v0[i].stmt.handle,
                    ),
            decreases self.entries@.len(),
        {
            let ghost k = n - self.entries@.len();
            proof {
                assert(self.entries@ == v0.skip(k));
                assert(v0.skip(k)[0] == v0[k]);
            }
            let d = self.entries.remove(0);
            let _ = d.stmt.close(cli);
            proof {
                assert(d == v0[k]);
                assert_seqs_equal!(self.entries@ == v0.skip(k + 1));
                assert_seqs_equal!(cli.events().take(ev0.len() as int) == ev0);
                assert(is_free_drop(cli.events()[ev0.len() + k], v0[k].stmt.handle));
            }
        }
        proof {
            assert(self@ =~= Seq::<StmtCacheData>::empty());
        }
    }
}

} // verus!
