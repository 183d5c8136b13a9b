//! The decisions around loading extensions and the connection settings that go with it;
//! the calls themselves go through SQLite's C interface.
use vstd::prelude::*;
use crate::codes;
use crate::types::{Error, Result};

verus! {

/// The SQLite version from which extensions can be loaded with an entry point.
pub const LOAD_EXTENSION_VERSION: i32 = 3_008_007;

/// The SQLite version from which extension loading can be switched on for one call with
/// `SQLITE_DBCONFIG_ENABLE_LOAD_EXTENSION`.
pub const LOAD_EXTENSION_CONFIG_VERSION: i32 = 3_013_000;

/// The SQLite version from which the connection has a "defensive" flag.
pub const DEFENSIVE_VERSION: i32 = 3_026_000;

/// The SQLite version from which `sqlite3_strglob` exists.
pub const STRGLOB_VERSION: i32 = 3_007_017;

/// The SQLite version from which `sqlite3_strlike` exists.
pub const STRLIKE_VERSION: i32 = 3_010_000;

/// The SQLite version from which `sqlite3_sourceid` exists.
pub const SOURCEID_VERSION: i32 = 3_021_000;

/// Whether a feature of the given version is there on SQLite of version `version`: `Ok`, or
/// the error that names the version needed.
pub fn require_version(version: i32, needed: i32) -> (r: Result<()>)
    ensures
        version >= needed ==> r == Ok::<(), Error>(()),
        version < needed ==> r == Err::<(), Error>(Error::VersionNotSatisfied(needed)),
{
    if version >= needed {
        Ok(())
    } else {
        Err(Error::VersionNotSatisfied(needed))
    }
}

/// How loading an extension starts on SQLite of the given version: before 3.8.7 it fails;
/// from 3.13.0 (`Ok(true)`) loading is switched on for the call, remembering whether it was
/// on; before that (`Ok(false)`) it must already be on.
pub fn load_extension_plan(version: i32) -> (r: Result<bool>)
    ensures
        version < LOAD_EXTENSION_VERSION ==> r == Err::<bool, Error>(
            Error::VersionNotSatisfied(LOAD_EXTENSION_VERSION),
        ),
        version >= LOAD_EXTENSION_VERSION ==> r == Ok::<bool, Error>(
            version >= LOAD_EXTENSION_CONFIG_VERSION,
        ),
{
    if version < LOAD_EXTENSION_VERSION {
        Err(Error::VersionNotSatisfied(LOAD_EXTENSION_VERSION))
    } else {
        Ok(version >= LOAD_EXTENSION_CONFIG_VERSION)
    }
}

/// Whether extension loading must be switched off again after the call: only where this
/// call switched it on.
pub fn must_disable_after_load(version: i32, was_enabled: bool) -> (b: bool)
    ensures
        b == (version >= LOAD_EXTENSION_CONFIG_VERSION && !was_enabled),
{
    version >= LOAD_EXTENSION_CONFIG_VERSION && !was_enabled
}

/// The outcome of `sqlite3_load_extension`: success for `SQLITE_OK`, otherwise the code
/// with the message SQLite gave.
pub fn load_extension_outcome(rc: i32, message: Option<String>) -> (r: Result<()>)
    ensures
        rc == codes::SQLITE_OK ==> r == Ok::<(), Error>(()),
        rc != codes::SQLITE_OK ==> r == Err::<(), Error>(Error::Sqlite(rc, message)),
{
    if rc == codes::SQLITE_OK {
        Ok(())
    } else {
        Err(Error::Sqlite(rc, message))
    }
}

/// The escape character handed to `sqlite3_strlike`: an ASCII character as itself, and
/// any other as none (0).
pub fn like_escape(c: char) -> (e: u32)
    ensures
        (c as u32) < 128 ==> e == c as u32,
        (c as u32) >= 128 ==> e == 0,
{
    let v = c as u32;
    if v < 128 {
        v
    } else {
        0
    }
}

} // verus!
