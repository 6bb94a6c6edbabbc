//! Transactions: one active unit of work per handle.
//!
//! A transaction is finished by exactly one terminal operation — `commit` and
//! `rollback` consume it — or kept alive across a retaining commit or
//! rollback, after which the same object stands for the successor
//! transaction.  The scoped helper [`crate::connection::Connection::with_transaction`]
//! and the query pipeline finish their transactions explicitly on every exit
//! path.

use vstd::prelude::*;

use crate::client::{BackendEvent, FirebirdClient};
use crate::connection::Connection;
use crate::types::{FbError, TrHandle, TrIsolationLevel, TrOp};

verus! {

/// One active unit of work on a connection.
pub struct Transaction {
    /// The backend-issued transaction handle.
    pub handle: TrHandle,
}

impl<C: FirebirdClient> Connection<C> {
    /// Asks the backend for a new transaction under the given isolation
    /// level.
    pub fn begin_transaction(&mut self, il: TrIsolationLevel) -> (r: Result<Transaction, FbError>)
        requires
            !old(self).is_closed(),
        ensures
            final(self).same_identity(old(self)),
            final(self).cache() == old(self).cache(),
            match r {
                Ok(t) => final(self).events() == old(self).events().push(
                    BackendEvent::Begin(old(self).db(), il, Ok(t.handle)),
                ),
                Err(e) => final(self).events() == old(self).events().push(
                    BackendEvent::Begin(old(self).db(), il, Err(e)),
                ),
            },
    {
        match self.cli.begin_transaction(self.handle, il) {
            Ok(h) => Ok(Transaction { handle: h }),
            Err(e) => Err(e),
        }
    }
}

impl Transaction {
    /// Terminal commit: consumes the transaction.
    pub fn commit<C: FirebirdClient>(self, conn: &mut Connection<C>) -> (r: Result<(), FbError>)
        requires
            !old(conn).is_closed(),
        ensures
            final(conn).same_identity(old(conn)),
            final(conn).cache() == old(conn).cache(),
            final(conn).events() == old(conn).events().push(
                BackendEvent::Transaction(self.handle, TrOp::Commit, r),
            ),
    {
        conn.cli.transaction_operation(self.handle, TrOp::Commit)
    }

    /// Terminal rollback: consumes the transaction.
    pub fn rollback<C: FirebirdClient>(self, conn: &mut Connection<C>) -> (r: Result<(), FbError>)
        requires
            !old(conn).is_closed(),
        ensures
            final(conn).same_identity(old(conn)),
            final(conn).cache() == old(conn).cache(),
            final(conn).events() == old(conn).events().push(
                BackendEvent::Transaction(self.handle, TrOp::Rollback, r),
            ),
    {
        conn.cli.transaction_operation(self.handle, TrOp::Rollback)
    }

    /// Commits the work done so far while keeping the transaction usable, so
    /// later statements need no fresh `begin` round trip.
    pub fn commit_retaining<C: FirebirdClient>(&self, conn: &mut Connection<C>) -> (r: Result<
        (),
        FbError,
    >)
        requires
            !old(conn).is_closed(),
        ensures
            final(conn).same_identity(old(conn)),
            final(conn).cache() == old(conn).cache(),
            final(conn).events() == old(conn).events().push(
                BackendEvent::Transaction(self.handle, TrOp::CommitRetaining, r),
            ),
    {
        conn.cli.transaction_operation(self.handle, TrOp::CommitRetaining)
    }

    /// Rolls back the work done so far while keeping the transaction usable.
    pub fn rollback_retaining<C: FirebirdClient>(&self, conn: &mut Connection<C>) -> (r: Result<
        (),
        FbError,
    >)
        requires
            !old(conn).is_closed(),
        ensures
            final(conn).same_identity(old(conn)),
            final(conn).cache() == old(conn).cache(),
            final(conn).events() == old(conn).events().push(
                BackendEvent::Transaction(self.handle, TrOp::RollbackRetaining, r),
            ),
    {
        conn.cli.transaction_operation(self.handle, TrOp::RollbackRetaining)
    }

    /// Executes one SQL text under this transaction without preparing a
    /// reusable statement.
    pub fn execute_immediate<C: FirebirdClient>(
        &self,
        conn: &mut Connection<C>,
        sql: &str,
    ) -> (r: Result<(), FbError>)
        requires
            !old(conn).is_closed(),
        ensures
            final(conn).same_identity(old(conn)),
            final(conn).cache() == old(conn).cache(),
            final(conn).events() == old(conn).events().push(
                BackendEvent::ExecImmediate(
                    old(conn).db(),
                    self.handle,
                    old(conn).sql_dialect(),
                    sql@,
                    r,
                ),
            ),
    {
        let dialect = conn.dialect;
        let db = conn.handle;
        conn.cli.exec_immediate(db, self.handle, dialect, sql)
    }
}

} // verus!
