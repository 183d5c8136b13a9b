//! The error type of the library and the mapping of SQLite result codes onto it.
use vstd::prelude::*;
use crate::codes;
use crate::text::{i64_to_string, int_text};

verus! {

#[verifier::external_type_specification]
#[verifier::external_body]
pub struct ExUtf8Error(std::str::Utf8Error);

/// `Utf8Error` is `Copy`: its derived `clone` gives back the same value.
pub assume_specification[ <std::str::Utf8Error as Clone>::clone ](e: &std::str::Utf8Error) -> (r: std::str::Utf8Error)
    ensures
        r == *e,
;

/// An error from SQLite or from this library.
#[derive(Debug, Clone, PartialEq)]
pub enum Error {
    /// An SQLite result code, with SQLite's description of the failure where one was given.
    Sqlite(i32, Option<String>),
    /// Text that was not valid UTF-8.
    Utf8Error(std::str::Utf8Error),
    /// The feature needs a newer SQLite; the value is the version that it needs.
    VersionNotSatisfied(i32),
    /// A message from a module.
    Module(String),
    /// A lookup found nothing.
    NotFound,
    /// The result was not produced because the column is unchanged by an UPDATE.
    NoChange,
}

/// The result type of the library.
pub type Result<T> = std::result::Result<T, Error>;

/// Whether a result code means success: `SQLITE_OK`, `SQLITE_ROW` or `SQLITE_DONE`.
pub open spec fn is_success_code(rc: i32) -> bool {
    rc == codes::SQLITE_OK || rc == codes::SQLITE_ROW || rc == codes::SQLITE_DONE
}

/// The error that stands for a bare SQLite result code.
pub open spec fn code_error(rc: i32) -> Error {
    Error::Sqlite(rc, None)
}

/// The text of a version number `major * 1000000 + minor * 1000 + patch`.
pub open spec fn version_text(v: int) -> Seq<char> {
    int_text(v / 1000000) + seq!['.'] + int_text((v / 1000) % 1000) + seq!['.'] + int_text(v % 1000)
}

/// `SQLITE_MISUSE` as an error.
#[allow(non_snake_case)]
pub fn SQLITE_MISUSE() -> (e: Error)
    ensures
        e == code_error(codes::SQLITE_MISUSE),
{
    Error::Sqlite(codes::SQLITE_MISUSE, None)
}

/// `SQLITE_EMPTY` as an error.
#[allow(non_snake_case)]
pub fn SQLITE_EMPTY() -> (e: Error)
    ensures
        e == code_error(codes::SQLITE_EMPTY),
{
    Error::Sqlite(codes::SQLITE_EMPTY, None)
}

/// `SQLITE_RANGE` as an error.
#[allow(non_snake_case)]
pub fn SQLITE_RANGE() -> (e: Error)
    ensures
        e == code_error(codes::SQLITE_RANGE),
{
    Error::Sqlite(codes::SQLITE_RANGE, None)
}

/// `SQLITE_NOMEM` as an error.
#[allow(non_snake_case)]
pub fn SQLITE_NOMEM() -> (e: Error)
    ensures
        e == code_error(codes::SQLITE_NOMEM),
{
    Error::Sqlite(codes::SQLITE_NOMEM, None)
}

/// `SQLITE_MISMATCH` as an error.
#[allow(non_snake_case)]
pub fn SQLITE_MISMATCH() -> (e: Error)
    ensures
        e == code_error(codes::SQLITE_MISMATCH),
{
    Error::Sqlite(codes::SQLITE_MISMATCH, None)
}

/// `SQLITE_NOTFOUND` as an error.
#[allow(non_snake_case)]
pub fn SQLITE_NOTFOUND() -> (e: Error)
    ensures
        e == code_error(codes::SQLITE_NOTFOUND),
{
    Error::Sqlite(codes::SQLITE_NOTFOUND, None)
}

/// The message of an error, for every variant but `Utf8Error`, whose text is that of the
/// standard library.
pub open spec fn message_text(e: Error) -> Seq<char> {
    match e {
        Error::Sqlite(_, Some(desc)) => desc@,
        Error::Sqlite(code, None) => "SQLite error "@ + int_text(code as int),
        Error::Utf8Error(_) => Seq::empty(),
        Error::VersionNotSatisfied(v) => "requires SQLite version "@ + version_text(v as int)
            + " or above"@,
        Error::Module(s) => s@,
        Error::NotFound => "not found"@,
        Error::NoChange => "invalid Error::NoChange"@,
    }
}

/// Calls the standard library's `Display` of `Utf8Error` through `to_string`. Nothing is
/// promised of the text.
#[verifier::external_body]
fn utf8_error_text(e: &std::str::Utf8Error) -> (s: String) {
    e.to_string()
}

/// Calls the standard library's `Debug` of `Utf8Error`, through `format!`. Nothing is
/// promised of the text.
#[verifier::external_body]
pub(crate) fn utf8_error_debug(e: &std::str::Utf8Error) -> (s: String) {
    format!("{:?}", e)
}

impl Error {
    /// The human-readable message of this error.
    pub fn to_string(&self) -> (s: String)
        ensures
            !(self is Utf8Error) && !(self is VersionNotSatisfied) ==> s@ == message_text(*self),
            self matches Error::VersionNotSatisfied(v) && v >= 0 ==> s@ == message_text(*self),
    {
        match self {
            Error::Sqlite(_, Some(desc)) => desc.clone(),
            Error::Sqlite(code, None) => {
                let mut s = String::from_str("SQLite error ");
                let n = i64_to_string(*code as i64);
                s.append(n.as_str());
                s
            },
            Error::Utf8Error(e) => utf8_error_text(e),
            Error::VersionNotSatisfied(v) => {
                let mut s = String::from_str("requires SQLite version ");
                let v: i32 = *v;
                let major = i64_to_string((v / 1000000) as i64);
                let minor = i64_to_string(((v / 1000) % 1000) as i64);
                let patch = i64_to_string((v % 1000) as i64);
                s.append(major.as_str());
                s.append(".");
                s.append(minor.as_str());
                s.append(".");
                s.append(patch.as_str());
                s.append(" or above");
                proof {
                    reveal_strlit("requires SQLite version ");
                    reveal_strlit(".");
                    reveal_strlit(" or above");
                }
                s
            },
            Error::Module(m) => m.clone(),
            Error::NotFound => String::from_str("not found"),
            Error::NoChange => String::from_str("invalid Error::NoChange"),
        }
    }

    /// Turn an SQLite result code into a result.
    pub fn from_sqlite(rc: i32) -> (r: Result<()>)
        ensures
            is_success_code(rc) ==> r == Ok::<(), Error>(()),
            rc == codes::SQLITE_NOTFOUND ==> r == Err::<(), Error>(Error::NotFound),
            !is_success_code(rc) && rc != codes::SQLITE_NOTFOUND ==> r == Err::<(), Error>(
                code_error(rc),
            ),
    {
        if rc == codes::SQLITE_OK || rc == codes::SQLITE_ROW || rc == codes::SQLITE_DONE {
            Ok(())
        } else if rc == codes::SQLITE_NOTFOUND {
            Err(Error::NotFound)
        } else {
            Err(Error::Sqlite(rc, None))
        }
    }

    /// The error for a violated constraint.
    pub fn constraint_violation() -> (e: Error)
        ensures
            e == code_error(codes::SQLITE_CONSTRAINT),
    {
        Error::Sqlite(codes::SQLITE_CONSTRAINT, None)
    }

    /// The error for exhausted memory.
    pub fn no_memory() -> (e: Error)
        ensures
            e == code_error(codes::SQLITE_NOMEM),
    {
        Error::Sqlite(codes::SQLITE_NOMEM, None)
    }
}

} // verus!
