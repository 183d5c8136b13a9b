//! Verified building blocks for SQLite extensions and embedded use of SQLite.
use vstd::prelude::*;

pub mod codes;
pub mod engine;
pub mod text;
pub mod types;
pub mod globals;
pub mod nocase;
pub mod value;
pub mod connection;
pub mod query;
pub mod transaction;
pub mod test_helpers;
pub mod vtab;
pub mod function;
pub mod iterator;
pub mod value_list;
pub mod extension;

pub use connection::{Connection, Database, OpenFlags};
pub use globals::{sqlite3_stricmp, SqliteVersion};
pub use iterator::{FallibleIteratorMut, FallibleMap};
pub use value_list::ValueList;
pub use query::{Column, Params, QueryResult, Statement, ToParam};
pub use test_helpers::TestHelpers;
pub use transaction::{Transaction, TransactionType};
pub use types::{Error, Result, SQLITE_EMPTY, SQLITE_MISMATCH, SQLITE_MISUSE, SQLITE_NOMEM, SQLITE_NOTFOUND, SQLITE_RANGE};
pub use value::{Blob, RawValue, Value, ValueRef, ValueType};

verus! {

/// Indicate the risk level for a function or virtual table.
#[derive(Debug, Eq, PartialEq, Copy, Clone, Structural)]
pub enum RiskLevel {
    /// An innocuous function or virtual table only reads and alters the database in which
    /// it resides.
    Innocuous,
    /// A direct-only function or virtual table has side effects outside the database.
    DirectOnly,
}

} // verus!
