//! The calls into SQLite that the library makes, through the rusqlite crate.
use vstd::prelude::*;
use vstd::string::StringSliceAdditionalSpecFns;
use vstd::utf8::valid_utf8;
use rusqlite::Error as EngineError;
use rusqlite::Connection as EngineConnection;
use rusqlite::Statement as EngineStatement;
use rusqlite::Rows as EngineRows;
use rusqlite::Row as EngineRow;
use rusqlite::types::ValueRef as EngineValue;
use crate::value::RawValue;

verus! {

#[verifier::external_type_specification]
#[verifier::external_body]
pub struct ExEngineConnection(EngineConnection);

#[verifier::external_type_specification]
#[verifier::external_body]
pub struct ExEngineStatement<'a>(EngineStatement<'a>);

#[verifier::external_type_specification]
#[verifier::external_body]
pub struct ExEngineRows<'a>(EngineRows<'a>);

#[verifier::external_type_specification]
#[verifier::external_body]
pub struct ExEngineRow<'a>(EngineRow<'a>);

#[verifier::external_type_specification]
#[verifier::external_body]
pub struct ExEngineError(EngineError);

/// What an error of rusqlite tells: the extended SQLite result code where SQLite reported
/// the failure, and the message.
pub struct Failure {
    pub code: Option<i32>,
    pub message: Option<String>,
}

/// Takes a rusqlite error apart: `SqliteFailure` gives its extended result code and
/// message; any other error gives no code and rusqlite's `Display` text.
#[verifier::external_body]
pub(crate) fn describe_error(e: EngineError) -> (f: Failure) {
    match e {
        EngineError::SqliteFailure(err, message) => Failure {
            code: Some(err.extended_code),
            message,
        },
        other => Failure { code: None, message: Some(other.to_string()) },
    }
}

/// Calls `rusqlite::Connection::open_with_flags` with the given path and with the flags
/// given as SQLite's bits; beside the connection it gives back copies of the path and the
/// flags that it handed over.
#[verifier::external_body]
pub(crate) fn open(path: &str, flags: i32) -> (r: Result<(EngineConnection, String, i32), EngineError>)
    ensures
        r matches Ok((_, p, f)) ==> p@ == path@ && f == flags,
{
    EngineConnection::open_with_flags(path, rusqlite::OpenFlags::from_bits_retain(flags))
        .map(|c| (c, path.to_string(), flags))
}

/// Calls `rusqlite::Connection::close`, which gives the same connection back when closing
/// fails.
#[verifier::external_body]
pub(crate) fn close(conn: EngineConnection) -> (r: Result<(), (EngineConnection, EngineError)>)
    ensures
        r matches Err((c, _)) ==> c == conn,
{
    conn.close()
}

/// Calls `rusqlite::Connection::set_db_config` for `SQLITE_DBCONFIG_DEFENSIVE`, which
/// reports a failure of SQLite as an error and otherwise gives the flag's new setting.
#[verifier::external_body]
pub(crate) fn set_defensive(conn: &EngineConnection, enable: bool) -> (r: Result<bool, EngineError>) {
    conn.set_db_config(rusqlite::config::DbConfig::SQLITE_DBCONFIG_DEFENSIVE, enable)
}

/// Calls `rusqlite::Connection::prepare` with the given SQL; beside the statement it gives
/// back a copy of the SQL that it handed over.
#[verifier::external_body]
pub(crate) fn prepare<'a>(conn: &'a EngineConnection, sql: &str) -> (r: Result<(EngineStatement<'a>, String), EngineError>)
    ensures
        r matches Ok((_, s)) ==> s@ == sql@,
{
    conn.prepare(sql).map(|s| (s, sql.to_string()))
}

/// Calls `rusqlite::Connection::execute_batch` and drops its result; it reports failures as
/// an `Err` and does not panic.
#[verifier::external_body]
pub(crate) fn execute_quietly(conn: &EngineConnection, sql: &str)
    opens_invariants none
    no_unwind
{
    let _ = conn.execute_batch(sql);
}

/// Calls `rusqlite::Connection::changes`: the rows changed by the last finished statement.
#[verifier::external_body]
pub(crate) fn changes(conn: &EngineConnection) -> (n: u64) {
    conn.changes()
}

/// `n` is a count that `changes` can report for the connection.
pub closed spec fn reported_changes(conn: &EngineConnection, n: u64) -> bool {
    call_ensures(changes, (conn,), n)
}

/// `id` is a rowid that `last_insert_rowid` can report for the connection.
pub closed spec fn reported_rowid(conn: &EngineConnection, id: i64) -> bool {
    call_ensures(last_insert_rowid, (conn,), id)
}

/// The number of rows that the last finished statement of the connection changed, as
/// SQLite reports it.
pub(crate) fn changes_of(conn: &EngineConnection) -> (n: u64)
    ensures
        reported_changes(conn, n),
{
    changes(conn)
}

/// The rowid of the last row that the connection inserted, as SQLite reports it.
pub(crate) fn rowid_of(conn: &EngineConnection) -> (id: i64)
    ensures
        reported_rowid(conn, id),
{
    last_insert_rowid(conn)
}

/// Calls `rusqlite::Connection::last_insert_rowid`.
#[verifier::external_body]
pub(crate) fn last_insert_rowid(conn: &EngineConnection) -> (n: i64) {
    conn.last_insert_rowid()
}

/// Calls `rusqlite::Statement::column_count`.
#[verifier::external_body]
pub(crate) fn column_count(stmt: &EngineStatement) -> (n: usize) {
    stmt.column_count()
}

/// Calls `rusqlite::Statement::parameter_count`.
#[verifier::external_body]
pub(crate) fn parameter_count(stmt: &EngineStatement) -> (n: usize) {
    stmt.parameter_count()
}

/// Calls `rusqlite::Statement::parameter_index`.
#[verifier::external_body]
pub(crate) fn parameter_index(stmt: &EngineStatement, name: &str) -> (r: Result<Option<usize>, EngineError>) {
    stmt.parameter_index(name)
}

/// Calls `rusqlite::Statement::parameter_name`, copying the name.
#[verifier::external_body]
pub(crate) fn parameter_name(stmt: &EngineStatement, i: usize) -> (r: Option<String>) {
    stmt.parameter_name(i).map(|s| s.to_string())
}

/// Calls `rusqlite::Statement::expanded_sql`, the statement's SQL with its parameters
/// filled in. It gives `None` where SQLite has no statement, which is so for text that holds
/// no SQL, and where memory runs out; nothing is stated of the text.
#[verifier::external_body]
pub(crate) fn expanded_sql(stmt: &EngineStatement) -> (r: Option<String>) {
    stmt.expanded_sql()
}

/// Calls `rusqlite::Statement::clear_bindings`.
#[verifier::external_body]
pub(crate) fn clear_bindings(stmt: &mut EngineStatement) {
    stmt.clear_bindings()
}

/// Calls `rusqlite::Statement::raw_bind_parameter` with an INTEGER.
#[verifier::external_body]
pub(crate) fn bind_integer(stmt: &mut EngineStatement, position: usize, value: i64) -> (r: Result<(), EngineError>) {
    stmt.raw_bind_parameter(position, value)
}

/// Calls `rusqlite::Statement::raw_bind_parameter` with TEXT made of the given bytes.
#[verifier::external_body]
pub(crate) fn bind_text(stmt: &mut EngineStatement, position: usize, value: &[u8]) -> (r: Result<(), EngineError>) {
    stmt.raw_bind_parameter(position, rusqlite::types::ToSqlOutput::Borrowed(EngineValue::Text(value)))
}

/// Calls `rusqlite::Statement::raw_bind_parameter` with a BLOB made of the given bytes.
#[verifier::external_body]
pub(crate) fn bind_blob(stmt: &mut EngineStatement, position: usize, value: &[u8]) -> (r: Result<(), EngineError>) {
    stmt.raw_bind_parameter(position, value)
}

/// Calls `rusqlite::Statement::raw_bind_parameter` with NULL.
#[verifier::external_body]
pub(crate) fn bind_null(stmt: &mut EngineStatement, position: usize) -> (r: Result<(), EngineError>) {
    stmt.raw_bind_parameter(position, rusqlite::types::Null)
}

/// Calls `rusqlite::Statement::raw_query`, which starts stepping through the results.
#[verifier::external_body]
pub(crate) fn raw_query<'s, 'c>(stmt: &'s mut EngineStatement<'c>) -> (r: EngineRows<'s>) {
    stmt.raw_query()
}

/// Calls `rusqlite::Rows::next`, which steps the statement once.
#[verifier::external_body]
pub(crate) fn rows_next<'r, 's>(rows: &'r mut EngineRows<'s>) -> (r: Result<Option<&'r EngineRow<'s>>, EngineError>) {
    rows.next()
}

/// Calls `rusqlite::Row::get_ref` and copies the value into a value of this library of the
/// same datatype; a FLOAT comes without its text, which [column_text] reads.
#[verifier::external_body]
pub(crate) fn row_value(row: &EngineRow, i: usize) -> (r: Result<RawValue, EngineError>) {
    row.get_ref(i).map(|v| match v {
        EngineValue::Null => RawValue::Null,
        EngineValue::Integer(x) => RawValue::Integer(x),
        EngineValue::Real(x) => RawValue::Float(x.to_bits(), Vec::new()),
        EngineValue::Text(t) => RawValue::Text(t.to_vec()),
        EngineValue::Blob(b) => RawValue::Blob(b.to_vec()),
    })
}

/// Calls `rusqlite::Connection::query_row` on `SELECT CAST(?1 AS TEXT)` with the value of
/// column `i` of the row (read with `Row::get_ref`), and gives back the bytes of the text
/// that SQLite makes of it. Nothing is promised of the text.
#[verifier::external_body]
pub(crate) fn column_text(conn: &EngineConnection, row: &EngineRow, i: usize) -> (r: Result<Vec<u8>, EngineError>) {
    conn.query_row("SELECT CAST(?1 AS TEXT)", [rusqlite::types::ToSqlOutput::Borrowed(row.get_ref(i)?)], |r| r.get::<_, String>(0))
        .map(String::into_bytes)
}

/// The version of the SQLite that this crate links: it builds rusqlite with its `bundled`
/// feature, so the library is the copy that libsqlite3-sys bundles, SQLite 3.54.1.
pub const LINKED_VERSION: i32 = 3_054_001;

/// `v` is what reading column `i` of the row gives, where `row_value` read `read` there: that
/// value itself, but for a FLOAT, whose text is the one that `column_text` gives for the
/// same column.
pub closed spec fn read_as(conn: &EngineConnection, row: &EngineRow, i: usize, read: RawValue, v: RawValue) -> bool {
    &&& call_ensures(row_value, (row, i), Ok::<RawValue, EngineError>(read))
    &&& if let RawValue::Float(bits, _) = read {
        v matches RawValue::Float(b, text) && b == bits
            && call_ensures(column_text, (conn, row, i), Ok::<Vec<u8>, EngineError>(text))
    } else {
        v == read
    }
}

/// `v` is what reading column `i` of the row gives.
pub open spec fn column_read(conn: &EngineConnection, row: &EngineRow, i: usize, v: RawValue) -> bool {
    exists|read: RawValue| #[trigger] read_as(conn, row, i, read, v)
}

/// Read column `i` of the row: its value and, for a FLOAT, the text SQLite gives it.
pub(crate) fn read_column(conn: &EngineConnection, row: &EngineRow, i: usize) -> (r: Result<RawValue, EngineError>)
    ensures
        r matches Ok(v) ==> column_read(conn, row, i, v),
{
    let res = row_value(row, i);
    proof {
        assert(call_ensures(row_value, (row, i), res));
    }
    match res {
        Ok(RawValue::Float(bits, e)) => {
            let ghost read = RawValue::Float(bits, e);
            let tres = column_text(conn, row, i);
            proof {
                assert(call_ensures(column_text, (conn, row, i), tres));
            }
            match tres {
                Ok(text) => {
                    let v = RawValue::Float(bits, text);
                    assert(read_as(conn, row, i, read, v));
                    Ok(v)
                },
                Err(err) => Err(err),
            }
        },
        Ok(v) => {
            assert(read_as(conn, row, i, v, v));
            Ok(v)
        },
        Err(err) => Err(err),
    }
}

/// Calls `rusqlite::version_number`, which reports `sqlite3_libversion_number()` of the
/// SQLite library that is linked in: the bundled copy, whose `sqlite3.h` defines
/// `SQLITE_VERSION_NUMBER` as 3054001.
#[verifier::external_body]
pub(crate) fn version_number() -> (v: i32)
    ensures
        v == LINKED_VERSION,
{
    rusqlite::version_number()
}

/// Calls `rusqlite::version`, which reports `sqlite3_libversion()` of the SQLite library
/// that is linked in. Nothing is promised of the text.
#[verifier::external_body]
pub(crate) fn version_text() -> (s: &'static str) {
    rusqlite::version()
}

/// Calls `std::str::from_utf8`, which succeeds exactly on valid UTF-8 and then gives back
/// text made of the bytes that it was given.
#[verifier::external_body]
pub(crate) fn str_from_utf8(v: &[u8]) -> (r: Result<&str, std::str::Utf8Error>)
    ensures
        r is Ok <==> valid_utf8(v@),
        r matches Ok(s) ==> s.spec_bytes() == v@,
{
    std::str::from_utf8(v)
}

} // verus!
