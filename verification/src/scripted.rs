//! A deterministic in-memory backend.
//!
//! `ScriptedClient` implements the backend capability interface without any
//! server: handles are issued from a counter, queued rows are served by
//! `fetch`, and failures can be injected one call ahead.  It keeps plain
//! counters of the calls it received, so a test or example can observe the
//! engine's resource protocol (how often it prepared, freed, committed,
//! rolled back, detached) from outside.

use vstd::prelude::*;

use crate::client::{BackendEvent, FirebirdClient};
use crate::types::{
    DbHandle, Dialect, FbError, FreeStmtOp, Param, Row, StmtHandle, StmtType, TrHandle,
    TrIsolationLevel, TrOp,
};

verus! {

/// Attachment configuration of the scripted backend.
pub struct ScriptedConfig {
    /// When set, attaching fails with a backend error.
    pub fail_attach: bool,
}

impl Default for ScriptedConfig {
    fn default() -> (r: Self)
        ensures
            !r.fail_attach,
    {
        ScriptedConfig { fail_attach: false }
    }
}

/// A backend that replays scripted results and counts the calls it receives.
pub struct ScriptedClient {
    /// Source of fresh handles.
    pub next_handle: u32,
    /// Rows the next fetches serve, front first; empty means end of data.
    pub rows: Vec<Row>,
    /// Make the next prepare fail.
    pub fail_next_prepare: bool,
    /// Make the next execute fail.
    pub fail_next_execute: bool,
    /// Make the next fetch fail.
    pub fail_next_fetch: bool,
    /// How many statements were prepared.
    pub prepares: u64,
    /// How many statements were executed.
    pub executes: u64,
    /// How many rows were fetched (or tried).
    pub fetches: u64,
    /// How many transactions were begun.
    pub begins: u64,
    /// How many times the database was detached.
    pub detaches: u64,
    /// How many statements were dropped.
    pub stmt_drops: u64,
    /// How many cursors were closed.
    pub cursor_closes: u64,
    /// Terminal commits.
    pub commits: u64,
    /// Terminal rollbacks.
    pub rollbacks: u64,
    /// Retaining commits.
    pub commit_retainings: u64,
    /// Retaining rollbacks.
    pub rollback_retainings: u64,
    /// The ghost log the backend contract is stated over.
    pub log: Ghost<Seq<BackendEvent>>,
}

/// The error every injected failure reports.
fn scripted_error() -> (r: FbError)
    ensures
        r matches FbError::Backend { code, msg } && code == -1,
{
    FbError::Backend { code: -1, msg: String::new() }
}

impl ScriptedClient {
    /// A fresh backend: no rows queued, no failures armed, all counters zero.
    pub fn new() -> (r: ScriptedClient)
        ensures
            r.events() == Seq::<BackendEvent>::empty(),
            r.rows@.len() == 0,
            !r.fail_next_prepare,
            !r.fail_next_execute,
            !r.fail_next_fetch,
            r.prepares == 0,
            r.executes == 0,
            r.fetches == 0,
            r.begins == 0,
            r.detaches == 0,
            r.stmt_drops == 0,
            r.cursor_closes == 0,
            r.commits == 0,
            r.rollbacks == 0,
            r.commit_retainings == 0,
            r.rollback_retainings == 0,
    {
        ScriptedClient {
            next_handle: 1,
            rows: Vec::new(),
            fail_next_prepare: false,
            fail_next_execute: false,
            fail_next_fetch: false,
            prepares: 0,
            executes: 0,
            fetches: 0,
            begins: 0,
            detaches: 0,
            stmt_drops: 0,
            cursor_closes: 0,
            commits: 0,
            rollbacks: 0,
            commit_retainings: 0,
            rollback_retainings: 0,
            log: Ghost(Seq::empty()),
        }
    }

    /// Issues a fresh handle.
    fn alloc_handle(&mut self) -> (r: u32)
        ensures
            final(self).log == old(self).log,
            final(self).rows == old(self).rows,
            final(self).fail_next_prepare == old(self).fail_next_prepare,
            final(self).fail_next_execute == old(self).fail_next_execute,
            final(self).fail_next_fetch == old(self).fail_next_fetch,
    {
        let h = self.next_handle;
        self.next_handle = self.next_handle.wrapping_add(1);
        h
    }
}

impl FirebirdClient for ScriptedClient {
    type AttachmentConfig = ScriptedConfig;

    open spec fn events(&self) -> Seq<BackendEvent> {
        self.log@
    }

    fn attach_database(&mut self, config: &ScriptedConfig) -> (r: Result<DbHandle, FbError>) {
        let res: Result<DbHandle, FbError> = if config.fail_attach {
            Err(scripted_error())
        } else {
            Ok(self.alloc_handle())
        };
        self.log = Ghost(self.log@.push(BackendEvent::Attach(res)));
        res
    }

    fn detach_database(&mut self, db: DbHandle) -> (r: Result<(), FbError>) {
        self.detaches = self.detaches.wrapping_add(1);
        let res: Result<(), FbError> = Ok(());
        self.log = Ghost(self.log@.push(BackendEvent::Detach(db, res)));
        res
    }

    fn drop_database(&mut self, db: DbHandle) -> (r: Result<(), FbError>) {
        let res: Result<(), FbError> = Ok(());
        self.log = Ghost(self.log@.push(BackendEvent::DropDatabase(db, res)));
        res
    }

    fn begin_transaction(&mut self, db: DbHandle, il: TrIsolationLevel) -> (r: Result<
        TrHandle,
        FbError,
    >) {
        self.begins = self.begins.wrapping_add(1);
        let res: Result<TrHandle, FbError> = Ok(self.alloc_handle());
        self.log = Ghost(self.log@.push(BackendEvent::Begin(db, il, res)));
        res
    }

    fn transaction_operation(&mut self, tr: TrHandle, op: TrOp) -> (r: Result<(), FbError>) {
        match op {
            TrOp::Commit => {
                self.commits = self.commits.wrapping_add(1);
            },
            TrOp::CommitRetaining => {
                self.commit_retainings = self.commit_retainings.wrapping_add(1);
            },
            TrOp::Rollback => {
                self.rollbacks = self.rollbacks.wrapping_add(1);
            },
            TrOp::RollbackRetaining => {
                self.rollback_retainings = self.rollback_retainings.wrapping_add(1);
            },
        }
        let res: Result<(), FbError> = Ok(());
        self.log = Ghost(self.log@.push(BackendEvent::Transaction(tr, op, res)));
        res
    }

    fn exec_immediate(&mut self, db: DbHandle, tr: TrHandle, dialect: Dialect, sql: &str) -> (r:
        Result<(), FbError>) {
        let res: Result<(), FbError> = Ok(());
        self.log = Ghost(self.log@.push(BackendEvent::ExecImmediate(db, tr, dialect, sql@, res)));
        res
    }

    fn prepare_statement(&mut self, db: DbHandle, tr: TrHandle, dialect: Dialect, sql: &str) -> (r:
        Result<(StmtType, StmtHandle), FbError>) {
        self.prepares = self.prepares.wrapping_add(1);
        let res: Result<(StmtType, StmtHandle), FbError> = if self.fail_next_prepare {
            self.fail_next_prepare = false;
            Err(scripted_error())
        } else {
            let h = self.alloc_handle();
            Ok((StmtType::Select, h))
        };
        self.log = Ghost(self.log@.push(BackendEvent::Prepare(db, tr, dialect, sql@, res)));
        res
    }

    fn free_statement(&mut self, stmt: StmtHandle, op: FreeStmtOp) -> (r: Result<(), FbError>) {
        match op {
            FreeStmtOp::Close => {
                self.cursor_closes = self.cursor_closes.wrapping_add(1);
            },
            FreeStmtOp::Drop => {
                self.stmt_drops = self.stmt_drops.wrapping_add(1);
            },
        }
        let res: Result<(), FbError> = Ok(());
        self.log = Ghost(self.log@.push(BackendEvent::Free(stmt, op, res)));
        res
    }

    fn execute(&mut self, tr: TrHandle, stmt: StmtHandle, params: Vec<Param>) -> (r: Result<
        (),
        FbError,
    >) {
        self.executes = self.executes.wrapping_add(1);
        let res: Result<(), FbError> = if self.fail_next_execute {
            self.fail_next_execute = false;
            Err(scripted_error())
        } else {
            Ok(())
        };
        self.log = Ghost(self.log@.push(BackendEvent::Execute(tr, stmt, params@, res)));
        res
    }

    fn fetch(&mut self, stmt: StmtHandle) -> (r: Result<Option<Row>, FbError>) {
        self.fetches = self.fetches.wrapping_add(1);
        let res: Result<Option<Row>, FbError> = if self.fail_next_fetch {
            self.fail_next_fetch = false;
            Err(scripted_error())
        } else if self.rows.len() > 0 {
            let row = self.rows.remove(0);
            Ok(Some(row))
        } else {
            Ok(None)
        };
        self.log = Ghost(self.log@.push(BackendEvent::Fetch(stmt, res)));
        res
    }
}

} // verus!
