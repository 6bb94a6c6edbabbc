//! The query pipeline: one-shot execution and the streaming query.
//!
//! Both shapes share one protocol: begin a transaction, check out (or
//! prepare) the cached statement, execute it with exactly the caller's
//! parameters, and — success or failure — return the statement to the cache
//! before the transaction is finished, so a failing execution can never
//! starve the cache.  The contracts tie every outcome to its source: the
//! result is `Ok` precisely when each backend call of the round trip
//! succeeded, and each error surfaces unchanged after the owed teardown.
//! The streaming shape hands ownership of the connection, the checked-out
//! entry and the transaction to a [`StmtIter`], whose [`StmtIter::finish`]
//! runs the three-step teardown (close cursor, return statement, commit
//! retaining) exactly once on every way an iteration can end, normal
//! exhaustion and early abandonment alike.

use vstd::prelude::*;
use vstd::assert_seqs_equal;

use crate::client::{is_transaction_op, BackendEvent, FirebirdClient};
use crate::connection::Connection;
use crate::stmt_cache::{
    cache_contains, cache_index, checkout_events, return_events, spec_checkout, spec_return,
    CacheView, StmtCacheData,
};
use crate::transaction::Transaction;
use crate::types::{
    DbHandle, Dialect, FbError, FreeStmtOp, Param, Row, TrHandle, TrIsolationLevel, TrOp,
};

verus! {

/// One ran pipeline round trip, as reflected in the event log: the begun
/// transaction, the statement used, and the outcome of each backend call
/// (execute, the optional single fetch, the close a cache return can
/// involve, and the finishing transaction operation).
pub struct RoundTrip {
    pub trh: TrHandle,
    pub d: StmtCacheData,
    pub exec_res: Result<(), FbError>,
    pub fetch_res: Option<Result<Option<Row>, FbError>>,
    pub free_res: Result<(), FbError>,
    pub fin_op: TrOp,
    pub fin_res: Result<(), FbError>,
}

/// The round trip is about `sql` from cache state `v0`: the statement it
/// used is the cached one on a hit (a fresh one otherwise).
pub open spec fn roundtrip_wf(v0: CacheView, sql: Seq<char>, t: RoundTrip) -> bool {
    &&& t.d.sql@ == sql
    &&& (cache_contains(v0, sql) ==> t.d.stmt == v0[cache_index(v0, sql)].stmt)
}

/// The full event trace of one ran round trip: a successful begin, the
/// checkout (a successful prepare on a miss only), the execute with the
/// caller's parameters, the optional single fetch, the cache return (a drop
/// of the redundant or evicted statement, if any), and the finishing
/// transaction operation.
pub open spec fn pipeline_events(
    ev0: Seq<BackendEvent>,
    v0: CacheView,
    db: DbHandle,
    dialect: Dialect,
    sql: Seq<char>,
    params: Seq<Param>,
    cap: nat,
    t: RoundTrip,
) -> Seq<BackendEvent> {
    ev0.push(BackendEvent::Begin(db, TrIsolationLevel::ReadCommitted, Ok(t.trh)))
        + checkout_events(v0, sql, db, t.trh, dialect, t.d) + seq![
        BackendEvent::Execute(t.trh, t.d.stmt.handle, params, t.exec_res),
    ] + (match t.fetch_res {
        Some(fr) => seq![BackendEvent::Fetch(t.d.stmt.handle, fr)],
        None => Seq::<BackendEvent>::empty(),
    }) + return_events(spec_checkout(v0, sql), t.d, cap, t.free_res) + seq![
        BackendEvent::Transaction(t.trh, t.fin_op, t.fin_res),
    ]
}

/// The fetch outcome behind one answer of [`StmtIter::next`]: a row came
/// back, the end-of-data sentinel was reached, or the fetch failed.
pub open spec fn fetch_outcome(r: Option<Result<Row, FbError>>) -> Result<Option<Row>, FbError> {
    match r {
        Some(res) => match res {
            Ok(row) => Ok(Some(row)),
            Err(e) => Err(e),
        },
        None => Ok(None),
    }
}

/// The outcomes of the three teardown steps of a streaming query, all
/// swallowed by [`StmtIter::finish`].
pub struct TeardownOutcomes {
    pub cursor_res: Result<(), FbError>,
    pub free_res: Result<(), FbError>,
    pub commit_res: Result<(), FbError>,
}

/// The event trace of the streaming teardown: close the cursor, return the
/// statement to the cache, commit the transaction retaining.
pub open spec fn teardown_events(
    ev0: Seq<BackendEvent>,
    v0: CacheView,
    cap: nat,
    d: StmtCacheData,
    trh: TrHandle,
    o: TeardownOutcomes,
) -> Seq<BackendEvent> {
    ev0.push(BackendEvent::Free(d.stmt.handle, FreeStmtOp::Close, o.cursor_res)) + return_events(
        v0,
        d,
        cap,
        o.free_res,
    ) + seq![BackendEvent::Transaction(trh, TrOp::CommitRetaining, o.commit_res)]
}

impl<C: FirebirdClient> Connection<C> {
    /// One-shot execution: begins a transaction, checks out or prepares the
    /// statement, executes it with exactly `params`, returns the statement
    /// to the cache whether or not the execution succeeded, and commits.
    /// The result is `Ok` precisely when begin, (prepare,) execute and
    /// commit all succeeded; each error surfaces unchanged, an execution
    /// failure only after the cache return, followed by a rollback.
    pub fn execute(&mut self, sql: &str, params: Vec<Param>) -> (r: Result<(), FbError>)
        requires
            !old(self).is_closed(),
            old(self).wf(),
        ensures
            final(self).same_identity(old(self)),
            final(self).wf(),
            ({
                let ev0 = old(self).events();
                let v0 = old(self).cache();
                let db = old(self).db();
                let dialect = old(self).sql_dialect();
                let cap = old(self).cap();
                // the begin failed: its error is the result, nothing was acquired
                ||| (r matches Err(e) && final(self).cache() == v0 && final(self).events()
                    == ev0.push(BackendEvent::Begin(db, TrIsolationLevel::ReadCommitted, Err(e))))
                // the prepare failed: its error is the result, after a
                // best-effort rollback; the cache is unchanged
                ||| (r matches Err(e) && !cache_contains(v0, sql@) && final(self).cache() == v0
                    && exists|trh: TrHandle|
                    {
                        &&& final(self).events().len() == ev0.len() + 3
                        &&& final(self).events().take(ev0.len() as int + 2) == (#[trigger] ev0.push(
                            BackendEvent::Begin(db, TrIsolationLevel::ReadCommitted, Ok(trh)),
                        )).push(BackendEvent::Prepare(db, trh, dialect, sql@, Err(e)))
                        &&& is_transaction_op(final(self).events().last(), trh, TrOp::Rollback)
                    })
                // the statement ran: it went back to the cache either way;
                // execute success means a commit whose outcome is the result,
                // execute failure means a rollback and the execute's error
                ||| (exists|t: RoundTrip|
                    {
                        &&& roundtrip_wf(v0, sql@, t)
                        &&& t.fetch_res is None
                        &&& final(self).cache() == spec_return(spec_checkout(v0, sql@), t.d, cap)
                        &&& final(self).events() == #[trigger] pipeline_events(
                            ev0,
                            v0,
                            db,
                            dialect,
                            sql@,
                            params@,
                            cap,
                            t,
                        )
                        &&& match t.exec_res {
                            Ok(u) => t.fin_op == TrOp::Commit && r == t.fin_res,
                            Err(e) => t.fin_op == TrOp::Rollback && r == Err::<(), FbError>(e),
                        }
                    })
            }),
    {
        let ghost ev0 = self.events();
        let ghost v0 = self.cache();
        let ghost ps = params@;
        let tr = match self.begin_transaction(TrIsolationLevel::ReadCommitted) {
            Ok(t) => t,
            Err(e) => {
                return Err(e);
            },
        };
        let db = self.handle;
        let dialect = self.dialect;
        let data = match self.stmt_cache.get_or_prepare(
            &mut self.cli,
            db,
            tr.handle,
            dialect,
            sql,
            false,
        ) {
            Ok(d) => d,
            Err(e) => {
                let ghost mid = self.events();
                let _ = tr.rollback(self);
                proof {
                    assert_seqs_equal!(self.events().take(ev0.len() as int + 2) == mid);
                }
                return Err(e);
            },
        };
        let ghost dg = data;
        let ghost trh = tr.handle;
        let res = data.stmt.execute(&mut self.cli, tr.handle, params);
        let ghost xres = res;
        let ires = self.stmt_cache.insert_and_close(&mut self.cli, data);
        let ghost ires_g = ires;
        let _ = ires;
        match res {
            Ok(()) => {
                let cr = tr.commit(self);
                proof {
                    let t = RoundTrip {
                        trh,
                        d: dg,
                        exec_res: xres,
                        fetch_res: None,
                        free_res: ires_g,
                        fin_op: TrOp::Commit,
                        fin_res: cr,
                    };
                    assert_seqs_equal!(
                        self.events() ==
                        pipeline_events(ev0, v0, self.db(), self.sql_dialect(), sql@, ps,
                            self.cap(), t)
                    );
                }
                cr
            },
            Err(e) => {
                let rb = tr.rollback(self);
                proof {
                    let t = RoundTrip {
                        trh,
                        d: dg,
                        exec_res: xres,
                        fetch_res: None,
                        free_res: ires_g,
                        fin_op: TrOp::Rollback,
                        fin_res: rb,
                    };
                    assert_seqs_equal!(
                        self.events() ==
                        pipeline_events(ev0, v0, self.db(), self.sql_dialect(), sql@, ps,
                            self.cap(), t)
                    );
                }
                let _ = rb;
                Err(e)
            },
        }
    }

    /// Like [`Connection::execute`], but additionally retrieves the single
    /// row such a statement returns before committing.  A fetched row comes
    /// back in `Ok` exactly when the commit also succeeded; the end-of-data
    /// sentinel in place of a row becomes a conversion error; every failure
    /// rolls back, after the same cache return — a failed call never
    /// commits work.
    pub fn execute_returnable(&mut self, sql: &str, params: Vec<Param>) -> (r: Result<
        Row,
        FbError,
    >)
        requires
            !old(self).is_closed(),
            old(self).wf(),
        ensures
            final(self).same_identity(old(self)),
            final(self).wf(),
            ({
                let ev0 = old(self).events();
                let v0 = old(self).cache();
                let db = old(self).db();
                let dialect = old(self).sql_dialect();
                let cap = old(self).cap();
                ||| (r matches Err(e) && final(self).cache() == v0 && final(self).events()
                    == ev0.push(BackendEvent::Begin(db, TrIsolationLevel::ReadCommitted, Err(e))))
                ||| (r matches Err(e) && !cache_contains(v0, sql@) && final(self).cache() == v0
                    && exists|trh: TrHandle|
                    {
                        &&& final(self).events().len() == ev0.len() + 3
                        &&& final(self).events().take(ev0.len() as int + 2) == (#[trigger] ev0.push(
                            BackendEvent::Begin(db, TrIsolationLevel::ReadCommitted, Ok(trh)),
                        )).push(BackendEvent::Prepare(db, trh, dialect, sql@, Err(e)))
                        &&& is_transaction_op(final(self).events().last(), trh, TrOp::Rollback)
                    })
                ||| (exists|t: RoundTrip|
                    {
                        &&& roundtrip_wf(v0, sql@, t)
                        &&& final(self).cache() == spec_return(spec_checkout(v0, sql@), t.d, cap)
                        &&& final(self).events() == #[trigger] pipeline_events(
                            ev0,
                            v0,
                            db,
                            dialect,
                            sql@,
                            params@,
                            cap,
                            t,
                        )
                        &&& match t.exec_res {
                            Ok(u) => match t.fetch_res {
                                Some(fr) => match fr {
                                    Ok(orow) => match orow {
                                        Some(row) => t.fin_op == TrOp::Commit && (match t.fin_res {
                                            Ok(u2) => r == Ok::<Row, FbError>(row),
                                            Err(ce) => r == Err::<Row, FbError>(ce),
                                        }),
                                        None => t.fin_op == TrOp::Rollback && (r matches Err(e2)
                                            && e2 is Conversion),
                                    },
                                    Err(fe) => t.fin_op == TrOp::Rollback && r == Err::<
                                        Row,
                                        FbError,
                                    >(fe),
                                },
                                None => false,
                            },
                            Err(e) => t.fetch_res is None && t.fin_op == TrOp::Rollback && r
                                == Err::<Row, FbError>(e),
                        }
                    })
            }),
    {
        let ghost ev0 = self.events();
        let ghost v0 = self.cache();
        let ghost ps = params@;
        let tr = match self.begin_transaction(TrIsolationLevel::ReadCommitted) {
            Ok(t) => t,
            Err(e) => {
                return Err(e);
            },
        };
        let db = self.handle;
        let dialect = self.dialect;
        let data = match self.stmt_cache.get_or_prepare(
            &mut self.cli,
            db,
            tr.handle,
            dialect,
            sql,
            false,
        ) {
            Ok(d) => d,
            Err(e) => {
                let ghost mid = self.events();
                let _ = tr.rollback(self);
                proof {
                    assert_seqs_equal!(self.events().take(ev0.len() as int + 2) == mid);
                }
                return Err(e);
            },
        };
        let ghost dg = data;
        let ghost trh = tr.handle;
        let res = data.stmt.execute(&mut self.cli, tr.handle, params);
        let ghost xres = res;
        let fetched_row: Option<Result<Option<Row>, FbError>> = match &res {
            Ok(u) => Some(data.stmt.fetch(&mut self.cli)),
            Err(e) => None,
        };
        let ghost frg = fetched_row;
        let ires = self.stmt_cache.insert_and_close(&mut self.cli, data);
        let ghost ires_g = ires;
        let _ = ires;
        match res {
            Ok(()) => {
                match fetched_row {
                    Some(Ok(Some(row))) => {
                        let cr = tr.commit(self);
                        proof {
                            let t = RoundTrip {
                                trh,
                                d: dg,
                                exec_res: xres,
                                fetch_res: frg,
                                free_res: ires_g,
                                fin_op: TrOp::Commit,
                                fin_res: cr,
                            };
                            assert_seqs_equal!(
                                self.events() ==
                                pipeline_events(ev0, v0, self.db(), self.sql_dialect(), sql@, ps,
                                    self.cap(), t)
                            );
                        }
                        match cr {
                            Ok(()) => Ok(row),
                            Err(e) => Err(e),
                        }
                    },
                    Some(Ok(None)) => {
                        let rb = tr.rollback(self);
                        proof {
                            let t = RoundTrip {
                                trh,
                                d: dg,
                                exec_res: xres,
                                fetch_res: frg,
                                free_res: ires_g,
                                fin_op: TrOp::Rollback,
                                fin_res: rb,
                            };
                            assert_seqs_equal!(
                                self.events() ==
                                pipeline_events(ev0, v0, self.db(), self.sql_dialect(), sql@, ps,
                                    self.cap(), t)
                            );
                        }
                        let _ = rb;
                        Err(FbError::Conversion { msg: String::new() })
                    },
                    Some(Err(e)) => {
                        let rb = tr.rollback(self);
                        proof {
                            let t = RoundTrip {
                                trh,
                                d: dg,
                                exec_res: xres,
                                fetch_res: frg,
                                free_res: ires_g,
                                fin_op: TrOp::Rollback,
                                fin_res: rb,
                            };
                            assert_seqs_equal!(
                                self.events() ==
                                pipeline_events(ev0, v0, self.db(), self.sql_dialect(), sql@, ps,
                                    self.cap(), t)
                            );
                        }
                        let _ = rb;
                        Err(e)
                    },
                    None => {
                        let rb = tr.rollback(self);
                        let _ = rb;
                        proof {
                            assert(false);
                        }
                        Err(FbError::InvalidHandle)
                    },
                }
            },
            Err(e) => {
                let rb = tr.rollback(self);
                proof {
                    let t = RoundTrip {
                        trh,
                        d: dg,
                        exec_res: xres,
                        fetch_res: frg,
                        free_res: ires_g,
                        fin_op: TrOp::Rollback,
                        fin_res: rb,
                    };
                    assert_seqs_equal!(
                        self.events() ==
                        pipeline_events(ev0, v0, self.db(), self.sql_dialect(), sql@, ps,
                            self.cap(), t)
                    );
                }
                let _ = rb;
                Err(e)
            },
        }
    }

    /// Streaming query: begins a transaction, checks out or prepares the
    /// statement and executes it with exactly `params`, then hands
    /// everything to a [`StmtIter`] that fetches one row per advance.  An
    /// iterator is produced precisely when begin, (prepare,) and execute all
    /// succeeded; on any failure the connection comes back together with
    /// that call's own error, the statement already returned to the cache
    /// and the transaction rolled back.
    pub fn query_iter(self, sql: &str, params: Vec<Param>) -> (r: Result<
        StmtIter<C>,
        (Connection<C>, FbError),
    >)
        requires
            !self.is_closed(),
            self.wf(),
        ensures
            ({
                let ev0 = self.events();
                let v0 = self.cache();
                let db = self.db();
                let dialect = self.sql_dialect();
                let cap = self.cap();
                match r {
                    Ok(it) => {
                        &&& it.conn.same_identity(&self)
                        &&& it.wf()
                        &&& it.data.sql@ == sql@
                        &&& (cache_contains(v0, sql@) ==> it.data.stmt == v0[cache_index(
                            v0,
                            sql@,
                        )].stmt)
                        &&& it.conn.cache() == spec_checkout(v0, sql@)
                        &&& it.conn.events() == ev0.push(
                            BackendEvent::Begin(
                                db,
                                TrIsolationLevel::ReadCommitted,
                                Ok(it.tr.handle),
                            ),
                        ) + checkout_events(v0, sql@, db, it.tr.handle, dialect, it.data) + seq![
                            BackendEvent::Execute(
                                it.tr.handle,
                                it.data.stmt.handle,
                                params@,
                                Ok(()),
                            ),
                        ]
                    },
                    Err((c, e)) => {
                        &&& c.same_identity(&self)
                        &&& c.wf()
                        &&& ({
                            ||| (c.cache() == v0 && c.events() == ev0.push(
                                BackendEvent::Begin(
                                    db,
                                    TrIsolationLevel::ReadCommitted,
                                    Err(e),
                                ),
                            ))
                            ||| (!cache_contains(v0, sql@) && c.cache() == v0 && exists|
                                trh: TrHandle,
                            |
                                {
                                    &&& c.events().len() == ev0.len() + 3
                                    &&& c.events().take(ev0.len() as int + 2) == (#[trigger] ev0.push(
                                        BackendEvent::Begin(
                                            db,
                                            TrIsolationLevel::ReadCommitted,
                                            Ok(trh),
                                        ),
                                    )).push(BackendEvent::Prepare(db, trh, dialect, sql@, Err(e)))
                                    &&& is_transaction_op(c.events().last(), trh, TrOp::Rollback)
                                })
                            ||| (exists|t: RoundTrip|
                                {
                                    &&& roundtrip_wf(v0, sql@, t)
                                    &&& t.exec_res == Err::<(), FbError>(e)
                                    &&& t.fetch_res is None
                                    &&& t.fin_op == TrOp::Rollback
                                    &&& c.cache() == spec_return(spec_checkout(v0, sql@), t.d, cap)
                                    &&& c.events() == #[trigger] pipeline_events(
                                        ev0,
                                        v0,
                                        db,
                                        dialect,
                                        sql@,
                                        params@,
                                        cap,
                                        t,
                                    )
                                })
                        })
                    },
                }
            }),
    {
        let mut conn = self;
        let ghost ev0 = conn.events();
        let ghost v0 = conn.cache();
        let ghost ps = params@;
        let tr = match conn.begin_transaction(TrIsolationLevel::ReadCommitted) {
            Ok(t) => t,
            Err(e) => {
                return Err((conn, e));
            },
        };
        let db = conn.handle;
        let dialect = conn.dialect;
        let data = match conn.stmt_cache.get_or_prepare(
            &mut conn.cli,
            db,
            tr.handle,
            dialect,
            sql,
            false,
        ) {
            Ok(d) => d,
            Err(e) => {
                let ghost mid = conn.events();
                let _ = tr.rollback(&mut conn);
                proof {
                    assert_seqs_equal!(conn.events().take(ev0.len() as int + 2) == mid);
                }
                return Err((conn, e));
            },
        };
        let ghost dg = data;
        let ghost trh = tr.handle;
        let xr = data.stmt.execute(&mut conn.cli, tr.handle, params);
        let ghost xres = xr;
        match xr {
            Ok(()) => {
                proof {
                    assert(xres == Ok::<(), FbError>(xres->Ok_0));
                    assert(xres->Ok_0 == ());
                    assert_seqs_equal!(
                        conn.events() ==
                        ev0.push(BackendEvent::Begin(db, TrIsolationLevel::ReadCommitted,
                            Ok(trh)))
                            + checkout_events(v0, sql@, db, trh, dialect, dg)
                            + seq![BackendEvent::Execute(trh, dg.stmt.handle, ps, Ok(()))]
                    );
                }
                Ok(StmtIter { conn, data, tr })
            },
            Err(e) => {
                let ires = conn.stmt_cache.insert_and_close(&mut conn.cli, data);
                let ghost ires_g = ires;
                let _ = ires;
                let rb = tr.rollback(&mut conn);
                proof {
                    let t = RoundTrip {
                        trh,
                        d: dg,
                        exec_res: xres,
                        fetch_res: None,
                        free_res: ires_g,
                        fin_op: TrOp::Rollback,
                        fin_res: rb,
                    };
                    assert_seqs_equal!(
                        conn.events() ==
                        pipeline_events(ev0, v0, conn.db(), conn.sql_dialect(), sql@, ps,
                            conn.cap(), t)
                    );
                }
                let _ = rb;
                Err((conn, e))
            },
        }
    }
}

/// A streaming query in flight.  It owns the connection, the checked-out
/// cache entry and the transaction, because all three must stay valid across
/// every fetch; [`StmtIter::finish`] gives the connection back after running
/// the teardown exactly once.
pub struct StmtIter<C: FirebirdClient> {
    pub conn: Connection<C>,
    pub data: StmtCacheData,
    pub tr: Transaction,
}

impl<C: FirebirdClient> StmtIter<C> {
    /// The iteration is over an open, well-formed connection.
    pub open spec fn wf(&self) -> bool {
        &&& !self.conn.is_closed()
        &&& self.conn.wf()
    }

    /// Fetches the next row: exactly one fetch round trip per call, whose
    /// answer is handed on unchanged — a fetched row as `Some(Ok(row))`,
    /// the backend's end-of-data sentinel as `None`, a fetch failure as
    /// `Some(Err(e))`.  The cache and the transaction are untouched.
    pub fn next(&mut self) -> (r: Option<Result<Row, FbError>>)
        requires
            old(self).wf(),
        ensures
            final(self).wf(),
            final(self).conn.same_identity(&old(self).conn),
            final(self).conn.cache() == old(self).conn.cache(),
            final(self).data == old(self).data,
            final(self).tr == old(self).tr,
            final(self).conn.events() == old(self).conn.events().push(
                BackendEvent::Fetch(old(self).data.stmt.handle, fetch_outcome(r)),
            ),
    {
        match self.data.stmt.fetch(&mut self.conn.cli) {
            Ok(Some(row)) => Some(Ok(row)),
            Ok(None) => None,
            Err(e) => Some(Err(e)),
        }
    }

    /// The three-step teardown, run exactly once (this consumes the
    /// iteration): close the statement's cursor (errors ignored — the cursor
    /// may already be closed by exhaustion), return the statement to the
    /// cache, and commit the transaction retaining.  Errors of the teardown
    /// itself are swallowed; the connection comes back usable.
    pub fn finish(self) -> (c: Connection<C>)
        requires
            self.wf(),
        ensures
            c.same_identity(&self.conn),
            c.wf(),
            c.cache() == spec_return(self.conn.cache(), self.data, self.conn.cap()),
            exists|o: TeardownOutcomes|
                c.events() == #[trigger] teardown_events(
                    self.conn.events(),
                    self.conn.cache(),
                    self.conn.cap(),
                    self.data,
                    self.tr.handle,
                    o,
                ),
    {
        let StmtIter { mut conn, data, tr } = self;
        let ghost ev0 = conn.events();
        let ghost v0 = conn.cache();
        let ghost dg = data;
        let cr = data.stmt.close_cursor(&mut conn.cli);
        let ghost cr_g = cr;
        let _ = cr;
        let ir = conn.stmt_cache.insert_and_close(&mut conn.cli, data);
        let ghost ir_g = ir;
        let _ = ir;
        let tres = tr.commit_retaining(&mut conn);
        proof {
            let o = TeardownOutcomes { cursor_res: cr_g, free_res: ir_g, commit_res: tres };
            assert_seqs_equal!(
                conn.events() == teardown_events(ev0, v0, conn.cap(), dg, tr.handle, o)
            );
        }
        let _ = tres;
        conn
    }
}

} // verus!
