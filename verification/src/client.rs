//! The backend capability interface.
//!
//! A backend is whatever physically talks to a database server: it attaches
//! and detaches databases, starts and finishes transactions, prepares,
//! executes, fetches and frees statements.  The engine is generic over this
//! trait and never over a concrete backend.
//!
//! Each call a backend receives is recorded, in program order, in a ghost
//! event log ([`FirebirdClient::events`]).  An event carries the call's
//! arguments *and* its outcome, so a contract over the log pins down both
//! what was handed to the backend (which SQL text, under which dialect, with
//! which parameters) and how the engine answered each possible result.
//! Whether a call succeeds is the backend's own affair; the contracts here
//! promise only that the matching event, outcome included, is appended.

use vstd::prelude::*;

use crate::connection::ConnectionConfiguration;
use crate::types::{
    DbHandle, Dialect, FbError, FreeStmtOp, Param, Row, StmtHandle, StmtType, TrHandle,
    TrIsolationLevel, TrOp,
};

verus! {

/// One call made into a backend — its arguments and its outcome — as
/// recorded in the ghost event log.
pub enum BackendEvent {
    Attach(Result<DbHandle, FbError>),
    Detach(DbHandle, Result<(), FbError>),
    DropDatabase(DbHandle, Result<(), FbError>),
    Begin(DbHandle, TrIsolationLevel, Result<TrHandle, FbError>),
    Transaction(TrHandle, TrOp, Result<(), FbError>),
    ExecImmediate(DbHandle, TrHandle, Dialect, Seq<char>, Result<(), FbError>),
    Prepare(DbHandle, TrHandle, Dialect, Seq<char>, Result<(StmtType, StmtHandle), FbError>),
    Free(StmtHandle, FreeStmtOp, Result<(), FbError>),
    Execute(TrHandle, StmtHandle, Seq<Param>, Result<(), FbError>),
    Fetch(StmtHandle, Result<Option<Row>, FbError>),
}

/// Whether `e` records the transaction operation `op` on handle `h` (with
/// whatever outcome).
pub open spec fn is_transaction_op(e: BackendEvent, h: TrHandle, op: TrOp) -> bool {
    match e {
        BackendEvent::Transaction(h2, op2, _) => h2 == h && op2 == op,
        _ => false,
    }
}

/// The contract every backend must satisfy.
///
/// Every method appends exactly one event — arguments and outcome — to the
/// ghost log and is otherwise free to succeed or fail; using a handle after
/// its destructive operation is a programming error the backend reports as a
/// failure.
pub trait FirebirdClient: Sized {
    /// Backend-defined attachment configuration (host, credentials, charset).
    type AttachmentConfig;

    /// The calls this backend has received so far, in program order.
    spec fn events(&self) -> Seq<BackendEvent>;

    /// Opens a logical connection to a database instance.
    fn attach_database(&mut self, config: &Self::AttachmentConfig) -> (r: Result<
        DbHandle,
        FbError,
    >)
        ensures
            final(self).events() == old(self).events().push(BackendEvent::Attach(r)),
    ;

    /// Closes a logical connection.
    fn detach_database(&mut self, db: DbHandle) -> (r: Result<(), FbError>)
        ensures
            final(self).events() == old(self).events().push(BackendEvent::Detach(db, r)),
    ;

    /// Destroys the underlying database storage, bypassing normal detach.
    fn drop_database(&mut self, db: DbHandle) -> (r: Result<(), FbError>)
        ensures
            final(self).events() == old(self).events().push(BackendEvent::DropDatabase(db, r)),
    ;

    /// Starts a new transaction under the given isolation level.
    fn begin_transaction(&mut self, db: DbHandle, il: TrIsolationLevel) -> (r: Result<
        TrHandle,
        FbError,
    >)
        ensures
            final(self).events() == old(self).events().push(BackendEvent::Begin(db, il, r)),
    ;

    /// Commits or rolls back a transaction handle, retaining or not.
    fn transaction_operation(&mut self, tr: TrHandle, op: TrOp) -> (r: Result<(), FbError>)
        ensures
            final(self).events() == old(self).events().push(BackendEvent::Transaction(tr, op, r)),
    ;

    /// Executes one SQL text without preparing a reusable statement.
    fn exec_immediate(&mut self, db: DbHandle, tr: TrHandle, dialect: Dialect, sql: &str) -> (r:
        Result<(), FbError>)
        ensures
            final(self).events() == old(self).events().push(
                BackendEvent::ExecImmediate(db, tr, dialect, sql@, r),
            ),
    ;

    /// Compiles one SQL text into a server-side statement and classifies its
    /// kind; fails with a backend error, also when the kind is unrecognized.
    fn prepare_statement(&mut self, db: DbHandle, tr: TrHandle, dialect: Dialect, sql: &str) -> (r:
        Result<(StmtType, StmtHandle), FbError>)
        ensures
            final(self).events() == old(self).events().push(
                BackendEvent::Prepare(db, tr, dialect, sql@, r),
            ),
    ;

    /// Closes a statement's cursor or drops the statement entirely.
    fn free_statement(&mut self, stmt: StmtHandle, op: FreeStmtOp) -> (r: Result<(), FbError>)
        ensures
            final(self).events() == old(self).events().push(BackendEvent::Free(stmt, op, r)),
    ;

    /// Runs a prepared statement with the given positional parameters.
    fn execute(&mut self, tr: TrHandle, stmt: StmtHandle, params: Vec<Param>) -> (r: Result<
        (),
        FbError,
    >)
        ensures
            final(self).events() == old(self).events().push(
                BackendEvent::Execute(tr, stmt, params@, r),
            ),
    ;

    /// Fetches the next pending row of an executed statement; `Ok(None)` is
    /// the end-of-data sentinel.
    fn fetch(&mut self, stmt: StmtHandle) -> (r: Result<Option<Row>, FbError>)
        ensures
            final(self).events() == old(self).events().push(BackendEvent::Fetch(stmt, r)),
    ;
}

/// A factory for preconfigured instances of one backend implementation,
/// consumed by connection pools layered outside the engine.
pub trait FirebirdClientFactory {
    type C: FirebirdClient;

    /// Constructs a new instance of the backend.
    fn new_instance(&self) -> Result<Self::C, FbError>;

    /// Borrows the connection configuration the instances are built for.
    fn get_conn_conf(&self) -> &ConnectionConfiguration<
        <Self::C as FirebirdClient>::AttachmentConfig,
    >;
}

} // verus!
