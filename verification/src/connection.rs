//! Connection lifecycle: attaching, closing, dropping a database, and the
//! scoped-transaction helper.
//!
//! A connection owns its backend instance, the database handle, the
//! statement cache and a fixed dialect.  Once closed it refuses further work
//! (the operations require an open connection) and a second `close` is a
//! no-op: the ghost event log is left untouched, so the database is never
//! detached twice.

use vstd::prelude::*;
use vstd::assert_seqs_equal;

use crate::client::{is_transaction_op, BackendEvent, FirebirdClient};
use crate::stmt_cache::{cache_wf, closes_entries, CacheView, StmtCache, StmtCacheData};
use crate::transaction::Transaction;
use crate::types::{DbHandle, Dialect, FbError, TrIsolationLevel, TrOp};

verus! {

/// Configuration a connection is opened with.  The attachment part is fully
/// backend-defined; the engine only reads the dialect and the statement cache
/// capacity.
pub struct ConnectionConfiguration<A> {
    pub attachment_conf: A,
    pub dialect: Dialect,
    pub stmt_cache_size: usize,
}

impl<A: Default> Default for ConnectionConfiguration<A> {
    fn default() -> (r: Self)
        ensures
            r.dialect == Dialect::D3,
            r.stmt_cache_size == 20,
    {
        Self { attachment_conf: Default::default(), dialect: Dialect::D3, stmt_cache_size: 20 }
    }
}

/// A connection to one database: the backend instance, the database handle,
/// the statement cache, the dialect, and whether the connection was already
/// closed.
pub struct Connection<C: FirebirdClient> {
    pub handle: DbHandle,
    pub dialect: Dialect,
    pub stmt_cache: StmtCache,
    pub cli: C,
    pub closed: bool,
}

impl<C: FirebirdClient> Connection<C> {
    /// The backend calls made through this connection so far.
    pub open spec fn events(&self) -> Seq<BackendEvent> {
        self.cli.events()
    }

    /// The available entries of the statement cache.
    pub open spec fn cache(&self) -> CacheView {
        self.stmt_cache@
    }

    /// The configured statement cache capacity.
    pub open spec fn cap(&self) -> nat {
        self.stmt_cache.cap()
    }

    /// The database handle this connection is attached under.
    pub open spec fn db(&self) -> DbHandle {
        self.handle
    }

    /// The dialect statements are prepared under.
    pub open spec fn sql_dialect(&self) -> Dialect {
        self.dialect
    }

    /// Whether `close` or `drop_database` already ran.
    pub open spec fn is_closed(&self) -> bool {
        self.closed
    }

    /// The cache keys are distinct and the occupancy is within capacity.
    pub open spec fn wf(&self) -> bool {
        cache_wf(self.cache(), self.cap())
    }

    /// The parts of a connection that no operation but `close` and
    /// `drop_database` ever changes.
    pub open spec fn same_identity(&self, pre: &Self) -> bool {
        &&& self.db() == pre.db()
        &&& self.sql_dialect() == pre.sql_dialect()
        &&& self.cap() == pre.cap()
        &&& self.is_closed() == pre.is_closed()
    }

    /// Attaches to a database and builds the statement cache; the handle the
    /// connection keeps is exactly the one the recorded attach returned.  On
    /// failure the backend instance is dropped and nothing is left live.
    pub fn open(cli: C, conf: &ConnectionConfiguration<C::AttachmentConfig>) -> (r: Result<
        Connection<C>,
        FbError,
    >)
        ensures
            r matches Ok(c) ==> {
                &&& c.events() == cli.events().push(BackendEvent::Attach(Ok(c.db())))
                &&& c.cache() == Seq::<StmtCacheData>::empty()
                &&& c.cap() == conf.stmt_cache_size as nat
                &&& !c.is_closed()
                &&& c.sql_dialect() == conf.dialect
                &&& c.wf()
            },
    {
        let mut cli = cli;
        match cli.attach_database(&conf.attachment_conf) {
            Ok(handle) => Ok(
                Connection {
                    handle,
                    dialect: conf.dialect,
                    stmt_cache: StmtCache::new(conf.stmt_cache_size),
                    cli,
                    closed: false,
                },
            ),
            Err(e) => Err(e),
        }
    }

    /// Closes every available cached statement (best effort), then detaches;
    /// the result is the detach's own outcome.  Calling `close` on an
    /// already-closed connection is a no-op: no second detach is ever sent to
    /// the backend.
    pub fn close(&mut self) -> (r: Result<(), FbError>)
        ensures
            final(self).is_closed(),
            final(self).db() == old(self).db(),
            final(self).sql_dialect() == old(self).sql_dialect(),
            final(self).cap() == old(self).cap(),
            old(self).is_closed() ==> *final(self) == *old(self) && r == Ok::<(), FbError>(()),
            !old(self).is_closed() ==> {
                &&& final(self).wf()
                &&& final(self).cache() == Seq::<StmtCacheData>::empty()
                &&& final(self).events().len() == old(self).events().len() + old(
                    self,
                ).cache().len() + 1
                &&& closes_entries(
                    old(self).events(),
                    final(self).events().drop_last(),
                    old(self).cache(),
                )
                &&& final(self).events().last() == BackendEvent::Detach(old(self).db(), r)
            },
    {
        if self.closed {
            return Ok(());
        }
        let ghost ev0 = self.events();
        let ghost v0 = self.cache();
        self.closed = true;
        self.stmt_cache.close_all(&mut self.cli);
        let ghost mid = self.events();
        let r = self.cli.detach_database(self.handle);
        proof {
            assert_seqs_equal!(self.events().drop_last() == mid);
        }
        r
    }

    /// Consumes the connection's usefulness entirely: asks the backend to
    /// destroy the underlying database storage, bypassing normal detach.  The
    /// connection counts as closed afterwards, and the result is the
    /// backend's own answer.
    pub fn drop_database(&mut self) -> (r: Result<(), FbError>)
        requires
            !old(self).is_closed(),
        ensures
            final(self).is_closed(),
            final(self).db() == old(self).db(),
            final(self).sql_dialect() == old(self).sql_dialect(),
            final(self).cap() == old(self).cap(),
            final(self).cache() == old(self).cache(),
            final(self).wf() == old(self).wf(),
            final(self).events() == old(self).events().push(
                BackendEvent::DropDatabase(old(self).db(), r),
            ),
    {
        self.closed = true;
        self.cli.drop_database(self.handle)
    }

    /// Begins a transaction, runs the closure with exclusive access to it,
    /// then commits retaining on success or rolls back retaining on failure,
    /// handing the closure's result (or its error) back to the caller.  Every
    /// error is tied to its source: a failed begin or a failed retaining
    /// commit surfaces as the result (the latter followed by a best-effort
    /// terminal rollback), and a closure error comes back unchanged after the
    /// retaining rollback.
    pub fn with_transaction<T, F: FnOnce(&mut Transaction) -> Result<T, FbError>>(
        &mut self,
        closure: F,
    ) -> (r: Result<T, FbError>)
        requires
            !old(self).is_closed(),
            forall|tr: &mut Transaction| #[trigger] call_requires(closure, (tr,)),
        ensures
            final(self).same_identity(old(self)),
            final(self).cache() == old(self).cache(),
            ({
                let ev0 = old(self).events();
                let db = old(self).db();
                // the begin itself failed: its error is the result
                ||| (r matches Err(e) && final(self).events() == ev0.push(
                    BackendEvent::Begin(db, TrIsolationLevel::ReadCommitted, Err(e)),
                ))
                // the closure succeeded and the retaining commit went through
                ||| (exists|tr: &mut Transaction, cres: Result<T, FbError>|
                    {
                        &&& #[trigger] call_ensures(closure, (tr,), cres)
                        &&& cres is Ok
                        &&& r == cres
                        &&& final(self).events() == ev0.push(
                            BackendEvent::Begin(
                                db,
                                TrIsolationLevel::ReadCommitted,
                                Ok(tr.handle),
                            ),
                        ).push(
                            BackendEvent::Transaction(
                                final(tr).handle,
                                TrOp::CommitRetaining,
                                Ok(()),
                            ),
                        )
                    })
                // the closure succeeded but the retaining commit failed: its
                // error is the result, after a best-effort terminal rollback
                ||| (r matches Err(e) && exists|tr: &mut Transaction, cres: Result<T, FbError>|
                    {
                        &&& #[trigger] call_ensures(closure, (tr,), cres)
                        &&& cres is Ok
                        &&& final(self).events().len() == ev0.len() + 3
                        &&& final(self).events().take(ev0.len() as int + 2) == ev0.push(
                            BackendEvent::Begin(
                                db,
                                TrIsolationLevel::ReadCommitted,
                                Ok(tr.handle),
                            ),
                        ).push(
                            BackendEvent::Transaction(
                                final(tr).handle,
                                TrOp::CommitRetaining,
                                Err(e),
                            ),
                        )
                        &&& is_transaction_op(
                            final(self).events().last(),
                            final(tr).handle,
                            TrOp::Rollback,
                        )
                    })
                // the closure failed: its own error is the result, after the
                // retaining rollback (whose outcome is swallowed)
                ||| (exists|tr: &mut Transaction, cres: Result<T, FbError>|
                    {
                        &&& #[trigger] call_ensures(closure, (tr,), cres)
                        &&& cres is Err
                        &&& r == cres
                        &&& final(self).events().len() == ev0.len() + 2
                        &&& final(self).events().take(ev0.len() as int + 1) == ev0.push(
                            BackendEvent::Begin(
                                db,
                                TrIsolationLevel::ReadCommitted,
                                Ok(tr.handle),
                            ),
                        )
                        &&& is_transaction_op(
                            final(self).events().last(),
                            final(tr).handle,
                            TrOp::RollbackRetaining,
                        )
                    })
            }),
    {
        let ghost ev0 = self.events();
        let mut tr = match self.begin_transaction(TrIsolationLevel::ReadCommitted) {
            Ok(t) => t,
            Err(e) => {
                return Err(e);
            },
        };
        let res = closure(&mut tr);
        match res {
            Ok(v) => {
                let cr = tr.commit_retaining(self);
                let ghost cr_g = cr;
                match cr {
                    Ok(()) => {
                        proof {
                            assert(cr_g == Ok::<(), FbError>(cr_g->Ok_0));
                            assert(cr_g->Ok_0 == ());
                        }
                        Ok(v)
                    },
                    Err(e) => {
                        let ghost mid = self.events();
                        let _ = tr.rollback(self);
                        proof {
                            assert_seqs_equal!(self.events().take(ev0.len() as int + 2) == mid);
                        }
                        Err(e)
                    },
                }
            },
            Err(e) => {
                let ghost mid = self.events();
                let _ = tr.rollback_retaining(self);
                proof {
                    assert_seqs_equal!(self.events().take(ev0.len() as int + 1) == mid);
                }
                Err(e)
            },
        }
    }
}

} // verus!
