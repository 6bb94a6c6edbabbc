//! Shared value types of the engine: handles, enumerations, errors, and the
//! typed column representation that rows are made of.
//!
//! Backend-issued handles are opaque identifiers: the engine never interprets
//! their bits, it only hands them back to the backend.

use vstd::prelude::*;

verus! {

/// Identifier of an attached database, issued by the backend.
pub type DbHandle = u32;

/// Identifier of an active transaction, issued by the backend.
pub type TrHandle = u32;

/// Identifier of a prepared statement, issued by the backend.
pub type StmtHandle = u32;

/// SQL dialect under which statements are prepared and executed.
#[derive(Clone, Copy, PartialEq, Eq, Structural, Debug)]
pub enum Dialect {
    D1,
    D2,
    D3,
}

/// Consistency contract for a transaction's reads relative to concurrent
/// writers.
#[derive(Clone, Copy, PartialEq, Eq, Structural, Debug)]
pub enum TrIsolationLevel {
    Concurrency,
    Consistency,
    ReadCommitted,
}

/// Operation finishing (or retaining) a transaction handle.
#[derive(Clone, Copy, PartialEq, Eq, Structural, Debug)]
pub enum TrOp {
    Commit,
    CommitRetaining,
    Rollback,
    RollbackRetaining,
}

/// Operation applied to a prepared statement when it is released: close its
/// open cursor only, or drop the whole statement.
#[derive(Clone, Copy, PartialEq, Eq, Structural, Debug)]
pub enum FreeStmtOp {
    Close,
    Drop,
}

/// Kind of a prepared statement, as classified by the backend.
#[derive(Clone, Copy, PartialEq, Eq, Structural, Debug)]
pub enum StmtType {
    Select,
    Insert,
    Update,
    Delete,
    ExecProcedure,
    Other,
}

/// What went wrong.
///
/// `Backend` carries a backend-defined code and message; `InvalidHandle`
/// reports an operation on a handle the engine believes is no longer valid;
/// `Conversion` reports a fetched row whose shape or types do not match what
/// the caller asked for.
#[derive(Clone, PartialEq, Eq, Debug)]
pub enum FbError {
    Backend { code: i64, msg: String },
    InvalidHandle,
    Conversion { msg: String },
}

/// A tagged SQL value, as carried by one column of a fetched row or bound as
/// one statement parameter.  A `Double` carries the raw bit pattern of a
/// 64-bit IEEE floating point value; the engine never interprets it.
#[derive(Clone, PartialEq, Eq, Debug)]
pub enum SqlValue {
    Integer(i64),
    Double(u64),
    Text(String),
    Boolean(bool),
    Null,
}

/// One column of a fetched row.
#[derive(Clone, PartialEq, Eq, Debug)]
pub struct Column {
    pub value: SqlValue,
}

impl Column {
    /// Converts the column to an integer, the only conversion the engine
    /// offers itself; richer conversions belong to the application.
    pub fn to_i64(&self) -> (r: Result<i64, FbError>)
        ensures
            match self.value {
                SqlValue::Integer(i) => r == Ok::<i64, FbError>(i),
                _ => r is Err && (r matches Err(e) ==> e is Conversion),
            },
    {
        match &self.value {
            SqlValue::Integer(i) => Ok(*i),
            _ => Err(FbError::Conversion { msg: String::new() }),
        }
    }
}

/// An ordered sequence of typed columns produced by one fetch.
#[derive(Clone, PartialEq, Eq, Debug)]
pub struct Row {
    pub cols: Vec<Column>,
}

/// One positional statement parameter.
#[derive(Clone, PartialEq, Eq, Debug)]
pub struct Param {
    pub value: SqlValue,
}

} // verus!
