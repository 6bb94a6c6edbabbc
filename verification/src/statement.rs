//! Prepared-statement data and the per-statement backend operations.

use vstd::prelude::*;

use crate::client::{BackendEvent, FirebirdClient};
use crate::types::{FbError, FreeStmtOp, Param, Row, StmtHandle, StmtType, TrHandle};

verus! {

/// What the engine keeps of one prepared statement: its backend handle, the
/// kind the backend classified it as, and whether it was prepared for use
/// with named parameters.
#[derive(Clone, Copy, PartialEq, Eq, Structural, Debug)]
pub struct StatementData {
    pub stmt_type: StmtType,
    pub handle: StmtHandle,
    pub named_params: bool,
}

impl StatementData {
    /// Runs the statement under the given transaction with exactly the given
    /// positional parameters; for a query this opens the cursor the rows are
    /// fetched from.
    pub fn execute<C: FirebirdClient>(&self, cli: &mut C, tr: TrHandle, params: Vec<Param>) -> (r:
        Result<(), FbError>)
        ensures
            final(cli).events() == old(cli).events().push(
                BackendEvent::Execute(tr, self.handle, params@, r),
            ),
    {
        cli.execute(tr, self.handle, params)
    }

    /// Fetches the next pending row; `Ok(None)` means no more rows.
    pub fn fetch<C: FirebirdClient>(&self, cli: &mut C) -> (r: Result<Option<Row>, FbError>)
        ensures
            final(cli).events() == old(cli).events().push(BackendEvent::Fetch(self.handle, r)),
    {
        cli.fetch(self.handle)
    }

    /// Closes the statement's active cursor, keeping the statement itself.
    pub fn close_cursor<C: FirebirdClient>(&self, cli: &mut C) -> (r: Result<(), FbError>)
        ensures
            final(cli).events() == old(cli).events().push(
                BackendEvent::Free(self.handle, FreeStmtOp::Close, r),
            ),
    {
        cli.free_statement(self.handle, FreeStmtOp::Close)
    }

    /// Drops the statement on the backend.
    pub fn close<C: FirebirdClient>(&self, cli: &mut C) -> (r: Result<(), FbError>)
        ensures
            final(cli).events() == old(cli).events().push(
                BackendEvent::Free(self.handle, FreeStmtOp::Drop, r),
            ),
    {
        cli.free_statement(self.handle, FreeStmtOp::Drop)
    }
}

} // verus!
