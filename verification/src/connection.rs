//! Connections to SQLite databases.
use vstd::prelude::*;
use crate::codes;
use crate::engine::{self, Failure};
use rusqlite::Connection as EngineConnection;
use rusqlite::Error as EngineError;
use crate::types::{Error, Result};

verus! {

/// The flags with which a database is opened, as SQLite's bits.
#[derive(Debug, Copy, Clone, PartialEq, Eq, Structural)]
pub struct OpenFlags {
    bits: i32,
}

impl OpenFlags {
    /// The bits of these flags.
    pub closed spec fn spec_bits(&self) -> i32 {
        self.bits
    }

    /// Flags made of the given bits.
    pub fn from_bits(bits: i32) -> (f: OpenFlags)
        ensures
            f.spec_bits() == bits,
    {
        OpenFlags { bits }
    }

    /// The bits of these flags.
    pub fn bits(&self) -> (b: i32)
        ensures
            b == self.spec_bits(),
    {
        self.bits
    }

    /// The flags used by the open methods that take none: read and write, and create the
    /// database if it does not exist.
    pub fn default_flags() -> (f: OpenFlags)
        ensures
            f.spec_bits() == (codes::SQLITE_OPEN_READWRITE | codes::SQLITE_OPEN_CREATE),
    {
        OpenFlags { bits: codes::SQLITE_OPEN_READWRITE | codes::SQLITE_OPEN_CREATE }
    }
}

/// The primary result code of an extended result code: its low eight bits.
pub open spec fn primary_code(code: i32) -> i32 {
    code & 0xff
}

/// Turn what rusqlite reported into an error of this library.
pub fn error_of_failure(f: Failure) -> (e: Error)
    ensures
        f.code is Some ==> e == Error::Sqlite(primary_code(f.code->0), f.message),
        f.code is None && f.message is Some ==> e == Error::Module(f.message->0),
        f.code is None && f.message is None ==> (e matches Error::Module(m) && m@.len() == 0),
{
    match f.code {
        Some(c) => Error::Sqlite(c & 0xff, f.message),
        None => match f.message {
            Some(m) => Error::Module(m),
            None => Error::Module(String::new()),
        },
    }
}

pub(crate) fn engine_error(e: EngineError) -> (r: Error)
    ensures
        r is Sqlite || r is Module,
{
    error_of_failure(engine::describe_error(e))
}

/// A connection to an SQLite database.
#[derive(Debug)]
pub struct Connection {
    db: EngineConnection,
}

/// An owned connection to an SQLite database, which closes the connection when dropped.
#[derive(Debug)]
pub struct Database {
    conn: Connection,
    path: String,
    flags: i32,
}

impl Connection {
    /// Turn SQLite's "defensive" flag on or off, on SQLite of the given version: before
    /// 3.26.0, which introduced the flag, this does nothing.
    pub fn db_config_defensive_for_version(&self, version: i32, enable: bool) -> (r: Result<()>)
        ensures
            version < crate::extension::DEFENSIVE_VERSION ==> r == Ok::<(), Error>(()),
            r matches Err(e) ==> is_engine_error(e),
    {
        if version < crate::extension::DEFENSIVE_VERSION {
            return Ok(());
        }
        match engine::set_defensive(&self.db, enable) {
            Ok(_) => Ok(()),
            Err(e) => Err(engine_error(e)),
        }
    }

    /// Turn SQLite's "defensive" flag on or off; does nothing before SQLite 3.26.0.
    pub fn db_config_defensive(&self, enable: bool) -> (r: Result<()>)
        ensures
            r matches Err(e) ==> is_engine_error(e),
    {
        self.db_config_defensive_for_version(engine::version_number(), enable)
    }

    /// The rusqlite connection underneath.
    pub closed spec fn spec_engine(&self) -> &EngineConnection {
        &self.db
    }

    /// The rusqlite connection underneath, for work that this library does not do itself.
    pub fn engine(&self) -> (c: &EngineConnection)
        ensures
            c == self.spec_engine(),
        opens_invariants none
        no_unwind
    {
        &self.db
    }
}

/// An error that comes from SQLite or from rusqlite: every failure to open or close is one.
pub open spec fn is_engine_error(e: Error) -> bool {
    e is Sqlite || e is Module
}

impl Database {
    /// The connection that this database owns.
    pub closed spec fn spec_conn(&self) -> Connection {
        self.conn
    }

    /// The path that the database was opened with.
    pub closed spec fn spec_path(&self) -> Seq<char> {
        self.path@
    }

    /// The bits of the flags that the database was opened with.
    pub closed spec fn spec_flags(&self) -> i32 {
        self.flags
    }

    /// Open the database at the given path with the default flags.
    pub fn open(path: &str) -> (r: Result<Database>)
        ensures
            r matches Err(e) ==> is_engine_error(e),
            r matches Ok(d) ==> d.spec_path() == path@ && d.spec_flags() == (
                codes::SQLITE_OPEN_READWRITE | codes::SQLITE_OPEN_CREATE),
    {
        Database::open_with_flags(path, OpenFlags::default_flags())
    }

    /// Open a new in-memory database.
    pub fn open_in_memory() -> (r: Result<Database>)
        ensures
            r matches Err(e) ==> is_engine_error(e),
            r matches Ok(d) ==> d.spec_path() == ":memory:"@ && d.spec_flags() == (
                codes::SQLITE_OPEN_READWRITE | codes::SQLITE_OPEN_CREATE),
    {
        Database::open_with_flags(":memory:", OpenFlags::default_flags())
    }

    /// Open the database at the given path with the given flags.
    pub fn open_with_flags(path: &str, flags: OpenFlags) -> (r: Result<Database>)
        ensures
            r matches Err(e) ==> is_engine_error(e),
            r matches Ok(d) ==> d.spec_path() == path@ && d.spec_flags() == flags.spec_bits(),
    {
        match engine::open(path, flags.bits()) {
            Ok((db, p, f)) => Ok(Database { conn: Connection { db }, path: p, flags: f }),
            Err(e) => Err(engine_error(e)),
        }
    }

    /// Close the database, giving it back with the error when closing fails.
    pub fn close(self) -> (r: std::result::Result<(), (Error, Database)>)
        ensures
            r matches Err((e, d)) ==> is_engine_error(e) && d.spec_conn() == self.spec_conn()
                && d.spec_path() == self.spec_path() && d.spec_flags() == self.spec_flags(),
    {
        match engine::close(self.conn.db) {
            Ok(()) => Ok(()),
            Err((db, e)) => Err((engine_error(e), Database { conn: Connection { db }, path: self.path, flags: self.flags })),
        }
    }

    /// The path that the database was opened with.
    pub fn path(&self) -> (p: &str)
        ensures
            p@ == self.spec_path(),
    {
        self.path.as_str()
    }

    /// The flags that the database was opened with.
    pub fn flags(&self) -> (f: OpenFlags)
        ensures
            f.spec_bits() == self.spec_flags(),
    {
        OpenFlags::from_bits(self.flags)
    }

    /// The connection that this database owns.
    pub fn connection(&self) -> (c: &Connection)
        ensures
            *c == self.spec_conn(),
    {
        &self.conn
    }
}

impl std::ops::Deref for Database {
    type Target = Connection;

    fn deref(&self) -> (c: &Connection)
        ensures
            *c == self.spec_conn(),
    {
        &self.conn
    }
}

} // verus!
