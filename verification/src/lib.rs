//! A backend-agnostic database client engine.
//!
//! The engine owns the connection lifecycle, transaction state, a bounded
//! least-recently-used statement cache, and the lazy row-fetch pipeline that
//! ties them together.  How SQL is physically sent to a server is left to a
//! backend: any type implementing [`client::FirebirdClient`].  Every call the
//! engine makes into its backend is recorded in a ghost event log, and the
//! contracts of the public operations are stated over that log together with
//! the cache contents, so the resource protocol (statements checked out and
//! returned, cursors closed, transactions committed or rolled back, the
//! database detached at most once) is machine-checked.

pub mod client;
pub mod connection;
pub mod laws;
pub mod query;
pub mod scripted;
pub mod statement;
pub mod transaction;
pub mod stmt_cache;
pub mod types;

pub use crate::client::{FirebirdClient, FirebirdClientFactory};
pub use crate::connection::{Connection, ConnectionConfiguration};
pub use crate::query::StmtIter;
pub use crate::transaction::Transaction;
pub use crate::types::{
    Column, Dialect, FbError, FreeStmtOp, Param, Row, SqlValue, StmtType, TrIsolationLevel, TrOp,
};
