//! A fresh in-memory database for exercising the library, and ways to see a value as SQLite
//! hands it back.
use vstd::prelude::*;
use crate::codes;
use crate::connection::Database;
use crate::function::context::copy_raw;
use crate::function::{FunctionResult, ToContextResult};
use crate::types::{Error, Result, SQLITE_EMPTY};
use crate::value::{RawValue, ValueRef};

verus! {

/// Holds an in-memory database.
pub struct TestHelpers {
    pub db: Database,
}

impl TestHelpers {
    /// Open a new in-memory database.
    pub fn new() -> (r: Result<TestHelpers>)
        ensures
            r matches Err(e) ==> crate::connection::is_engine_error(e),
    {
        match Database::open_in_memory() {
            Ok(db) => Ok(TestHelpers { db }),
            Err(e) => Err(e),
        }
    }

    /// Run `SELECT` with the given SQL expression and give `func` the value that SQLite
    /// returns for it. What `func` returns is returned.
    pub fn with_value_from_sql<F: Fn(&mut ValueRef) -> Result<()>>(&self, sql: &str, func: F) -> (r: Result<()>)
        requires
            forall|v: &mut ValueRef| func.requires((v,)),
        ensures
            r is Ok ==> exists|v: &mut ValueRef| #[trigger] func.ensures((v,), r),
    {
        let mut text = String::from_str("SELECT ");
        text.append(sql);
        let mut stmt = match self.db.prepare(text.as_str()) {
            Ok(s) => s,
            Err(e) => return Err(e),
        };
        let mut value = match stmt.next() {
            Err(e) => return Err(e),
            Ok(None) => return Err(SQLITE_EMPTY()),
            Ok(Some(row)) => {
                if row.len() == 0 {
                    return Err(SQLITE_EMPTY());
                }
                ValueRef::new(copy_raw(row.column(0).value().value()))
            },
        };
        let out = func(&mut value);
        proof {
            assert(exists|v: &mut ValueRef| #[trigger] func.ensures((v,), out));
        }
        out
    }

    /// Pass the input through SQLite, as a parameter of `SELECT ?`, and give `func` the value
    /// that SQLite returns, with the input's subtype where SQLite keeps subtypes. An input
    /// that stands for an error fails with that error; one that leaves the result unset
    /// passes NULL.
    pub fn with_value<T: ToContextResult, F: Fn(&mut ValueRef) -> Result<()>>(&self, input: T, func: F) -> (r: Result<()>)
        requires
            forall|v: &mut ValueRef| func.requires((v,)),
        ensures
            exists|x: FunctionResult| #[trigger] input.describes(x) && {
                &&& x matches FunctionResult::Error(m) ==> r == Err::<(), Error>(
                    Error::Sqlite(codes::SQLITE_ERROR, Some(m)),
                )
                &&& x matches FunctionResult::ErrorCode(c) ==> r == Err::<(), Error>(
                    Error::Sqlite(c, None),
                )
            },
            r is Ok ==> exists|v: &mut ValueRef| #[trigger] func.ensures((v,), r),
    {
        let mut subtype: u8 = 0;
        let res = input.into_result();
        let raw = match res {
            FunctionResult::Value(v) => v,
            FunctionResult::Subtyped(v, s) => {
                subtype = s;
                v
            },
            FunctionResult::Unchanged => RawValue::Null,
            FunctionResult::Error(m) => return Err(Error::Sqlite(codes::SQLITE_ERROR, Some(m))),
            FunctionResult::ErrorCode(c) => return Err(Error::Sqlite(c, None)),
        };
        let mut stmt = match self.db.prepare("SELECT ?") {
            Ok(s) => s,
            Err(e) => return Err(e),
        };
        match stmt.bind_value(1, &raw) {
            Ok(()) => {},
            Err(e) => return Err(e),
        }
        let version = crate::engine::version_number();
        let mut value = match stmt.next() {
            Err(e) => return Err(e),
            Ok(None) => return Err(SQLITE_EMPTY()),
            Ok(Some(row)) => {
                if row.len() == 0 {
                    return Err(SQLITE_EMPTY());
                }
                let v = copy_raw(row.column(0).value().value());
                if version >= crate::value::SUBTYPE_VERSION {
                    ValueRef::with_subtype(v, subtype)
                } else {
                    ValueRef::new(v)
                }
            },
        };
        let out = func(&mut value);
        proof {
            assert(exists|v: &mut ValueRef| #[trigger] func.ensures((v,), out));
        }
        out
    }
}

} // verus!
