//! Virtual tables: the traits that a virtual table implements, the query plans SQLite
//! proposes to it, the changes it is asked to make, and the functions it overloads.
use vstd::prelude::*;
use crate::function::{ToContextResult, FunctionResult};
use crate::types::Result;
use crate::value::ValueRef;
use crate::RiskLevel;

pub mod index_info;
pub mod function;
pub mod module;

pub use function::{Overload, VTabFunction, VTabFunctionList};
pub use index_info::{ConstraintOp, DistinctMode, IndexInfo, IndexInfoConstraint, IndexInfoOrderBy};
pub use module::{EponymousModule, EponymousOnlyModule, Module, ModuleDescription, StandardModule};

verus! {

/// A virtual table. A read-only, eponymous-only table (such as a table-valued function) can
/// implement only this trait.
pub trait VTab<'vtab> {
    /// Additional data given when the module is registered, passed to `connect` and
    /// `create`.
    type Aux: 'vtab;

    /// The cursor type of the table.
    type Cursor: VTabCursor<'vtab>;

    /// xConnect: connect to an existing table. Returns the CREATE TABLE statement that
    /// declares the table's columns, and the table.
    fn connect(db: &mut VTabConnection, aux: &'vtab Self::Aux, args: &[&str]) -> Result<(String, Self)>
        where Self: Sized;

    /// xBestIndex: choose a plan for a query; see [IndexInfo]. `Err` with
    /// `SQLITE_CONSTRAINT` means that this combination of constraints cannot be used.
    fn best_index(&'vtab self, index_info: &mut IndexInfo) -> Result<()>;

    /// Create a cursor for a new query.
    fn open(&'vtab self) -> Result<Self::Cursor>;

    /// xDisconnect: release what the table holds; the inverse of `connect`.
    fn disconnect(&mut self) -> (r: Result<()>)
        default_ensures
            r is Ok,
    {
        Ok(())
    }
}

/// A virtual table that supports CREATE VIRTUAL TABLE.
pub trait CreateVTab<'vtab>: VTab<'vtab> {
    /// The suffixes of the table's shadow tables, for xShadowName.
    fn shadow_names() -> (r: Vec<&'static str>) where Self: Sized
        default_ensures
            r@.len() == 0,
    {
        Vec::new()
    }

    /// xCreate: create the table with CREATE VIRTUAL TABLE; as `connect` otherwise.
    fn create(db: &mut VTabConnection, aux: &'vtab Self::Aux, args: &[&str]) -> Result<(String, Self)>
        where Self: Sized;

    /// xDestroy: DROP TABLE; destroy what `create` made.
    fn destroy(&mut self) -> Result<()>;
}

/// A virtual table that supports INSERT, UPDATE and DELETE.
pub trait UpdateVTab<'vtab>: VTab<'vtab> {
    /// Change one row. For an INSERT whose rowid is NULL, the new rowid is returned; the
    /// value is ignored otherwise.
    fn update(&'vtab self, info: &mut ChangeInfo) -> Result<i64>;
}

/// A virtual table that supports ROLLBACK.
pub trait TransactionVTab<'vtab>: UpdateVTab<'vtab> {
    /// The transaction type of the table.
    type Transaction: VTabTransaction<'vtab>;

    /// Begin a transaction.
    fn begin(&'vtab self) -> Result<Self::Transaction>;
}

/// A virtual table that overloads some functions when their first argument is one of its
/// columns.
pub trait FindFunctionVTab<'vtab>: VTab<'vtab> {
    /// The type of the plain functions in the list.
    type Function;

    /// The type of the methods in the list.
    type Method;

    /// The functions that the table overloads.
    fn functions(&'vtab self) -> &'vtab VTabFunctionList<Self::Function, Self::Method>;
}

/// A virtual table that supports ALTER TABLE RENAME.
pub trait RenameVTab<'vtab>: VTab<'vtab> {
    /// xRename: the table is renamed; on `Ok`, SQLite reconnects under the new name.
    fn rename(&'vtab self, name: &str) -> Result<()>;
}

/// The cursor of a virtual table.
pub trait VTabCursor<'vtab> {
    /// Begin a search, with the index number and string that `best_index` chose and the
    /// arguments that it asked for.
    fn filter(&mut self, index_num: i32, index_str: Option<&str>, args: &mut [&mut ValueRef]) -> Result<()>;

    /// Move the cursor one row forward.
    fn next(&mut self) -> Result<()>;

    /// Whether the cursor is past the last row.
    fn eof(&mut self) -> bool;

    /// Give the value of the column numbered `idx` of the current row, through
    /// [ColumnContext::set_result]; with none, the column is NULL.
    fn column(&mut self, idx: usize, context: &mut ColumnContext) -> Result<()>;

    /// The rowid of the current row.
    fn rowid(&mut self) -> Result<i64>;
}

/// The transaction of a virtual table.
pub trait VTabTransaction<'vtab> {
    /// Begin a two-phase commit.
    fn sync(&mut self) -> Result<()>;

    /// Finish a commit.
    fn commit(self) -> Result<()> where Self: Sized;

    /// Roll back.
    fn rollback(self) -> Result<()> where Self: Sized;

    /// Save the current state as save point `n`.
    fn savepoint(&mut self, n: i32) -> Result<()>;

    /// Forget the save points numbered `n` and above.
    fn release(&mut self, n: i32) -> Result<()>;

    /// Go back to the state of the lowest save point numbered `n` or above.
    fn rollback_to(&mut self, n: i32) -> Result<()>;
}

/// The SQLite version from which `sqlite3_vtab_config` and `sqlite3_vtab_on_conflict`
/// exist.
pub const VTAB_CONFIG_VERSION: i32 = 3_007_007;

/// The SQLite version from which a virtual table can declare its risk level.
pub const VTAB_RISK_VERSION: i32 = 3_031_000;

/// The SQLite version from which `sqlite3_vtab_nochange` exists.
pub const NOCHANGE_VERSION: i32 = 3_022_000;

/// The connection as a virtual table sees it in `connect` and `create`: where the table
/// configures itself. What it asks for is handed to `sqlite3_vtab_config` before the
/// table's declaration returns to SQLite.
pub struct VTabConnection {
    version: i32,
    constraint_support: bool,
    risk_level: Option<RiskLevel>,
}

impl VTabConnection {
    pub closed spec fn spec_version(&self) -> i32 {
        self.version
    }

    pub closed spec fn spec_constraint_support(&self) -> bool {
        self.constraint_support
    }

    pub closed spec fn spec_risk_level(&self) -> Option<RiskLevel> {
        self.risk_level
    }

    /// The connection of a table that is being connected on SQLite of the given version;
    /// nothing is configured yet.
    pub fn new(version: i32) -> (c: VTabConnection)
        ensures
            c.spec_version() == version,
            !c.spec_constraint_support(),
            c.spec_risk_level() is None,
    {
        VTabConnection { version, constraint_support: false, risk_level: None }
    }

    /// Declare that the table checks constraints before it changes anything, so that
    /// SQLite can honour ON CONFLICT. Before SQLite 3.7.7 this does nothing.
    pub fn enable_constraints(&mut self)
        ensures
            final(self).spec_constraint_support() == (old(self).spec_constraint_support()
                || old(self).spec_version() >= VTAB_CONFIG_VERSION),
            final(self).spec_risk_level() == old(self).spec_risk_level(),
            final(self).spec_version() == old(self).spec_version(),
    {
        if self.version >= VTAB_CONFIG_VERSION {
            self.constraint_support = true;
        }
    }

    /// Set the risk level of the table. Before SQLite 3.31.0 this does nothing.
    pub fn set_risk_level(&mut self, level: RiskLevel)
        ensures
            final(self).spec_risk_level() == (if old(self).spec_version() >= VTAB_RISK_VERSION {
                Some(level)
            } else {
                old(self).spec_risk_level()
            }),
            final(self).spec_constraint_support() == old(self).spec_constraint_support(),
            final(self).spec_version() == old(self).spec_version(),
    {
        if self.version >= VTAB_RISK_VERSION {
            self.risk_level = Some(level);
        }
    }

    /// Whether constraint support was asked for.
    pub fn constraint_support(&self) -> (b: bool)
        ensures
            b == self.spec_constraint_support(),
    {
        self.constraint_support
    }

    /// The risk level asked for, if any.
    pub fn risk_level(&self) -> (r: Option<RiskLevel>)
        ensures
            r == self.spec_risk_level(),
    {
        self.risk_level
    }
}

/// The kind of change made to a virtual table.
#[derive(Debug, Eq, PartialEq, Copy, Clone, Structural)]
pub enum ChangeType {
    Insert,
    Delete,
    Update,
}

/// The ON CONFLICT mode of the statement that makes a change.
#[derive(Debug, Eq, PartialEq, Copy, Clone, Structural)]
pub enum ConflictMode {
    Rollback,
    Ignore,
    Fail,
    Abort,
    Replace,
}

/// The mode that a result of `sqlite3_vtab_on_conflict` stands for.
pub open spec fn conflict_mode_of(v: i32) -> ConflictMode {
    if v == 1 {
        ConflictMode::Rollback
    } else if v == 2 {
        ConflictMode::Ignore
    } else if v == 3 {
        ConflictMode::Fail
    } else if v == 4 {
        ConflictMode::Abort
    } else {
        ConflictMode::Replace
    }
}

impl ConflictMode {
    /// Decode a result of `sqlite3_vtab_on_conflict`.
    pub fn from_sqlite(val: i32) -> (m: ConflictMode)
        requires
            1 <= val <= 5,
        ensures
            m == conflict_mode_of(val),
    {
        match val {
            1 => ConflictMode::Rollback,
            2 => ConflictMode::Ignore,
            3 => ConflictMode::Fail,
            4 => ConflictMode::Abort,
            _ => ConflictMode::Replace,
        }
    }
}

/// The kind of a change, from the values SQLite passes to xUpdate: a single value (the
/// rowid of the deleted row) is a DELETE; otherwise a NULL first value is an INSERT and a
/// rowid an UPDATE.
pub open spec fn change_type_of(values: Seq<ValueRef>) -> ChangeType {
    if values.len() == 1 {
        ChangeType::Delete
    } else if values[0].spec_value() is Null {
        ChangeType::Insert
    } else {
        ChangeType::Update
    }
}

/// An INSERT, UPDATE or DELETE on a virtual table: the values SQLite passes to xUpdate
/// (the rowid of the changed row, then the new rowid and columns), the SQLite version, and
/// the ON CONFLICT mode of the statement.
pub struct ChangeInfo {
    version: i32,
    values: Vec<ValueRef>,
    conflict: i32,
}

impl ChangeInfo {
    #[verifier::type_invariant]
    spec fn inv(&self) -> bool {
        &&& self.values.len() >= 1
        &&& 1 <= self.conflict <= 5
    }

    pub closed spec fn spec_version(&self) -> i32 {
        self.version
    }

    pub closed spec fn spec_values(&self) -> Seq<ValueRef> {
        self.values@
    }

    pub closed spec fn spec_conflict(&self) -> i32 {
        self.conflict
    }

    /// The change that SQLite describes with the given values and ON CONFLICT code.
    pub fn new(version: i32, values: Vec<ValueRef>, conflict: i32) -> (c: ChangeInfo)
        requires
            values.len() >= 1,
            1 <= conflict <= 5,
        ensures
            c.spec_version() == version,
            c.spec_values() == values@,
            c.spec_conflict() == conflict,
    {
        ChangeInfo { version, values, conflict }
    }

    /// The kind of change.
    pub fn change_type(&self) -> (t: ChangeType)
        ensures
            t == change_type_of(self.spec_values()),
    {
        proof {
            use_type_invariant(self);
        }
        if self.values.len() == 1 {
            ChangeType::Delete
        } else if self.values[0].is_null() {
            ChangeType::Insert
        } else {
            ChangeType::Update
        }
    }

    /// The rowid (or PRIMARY KEY) of the row deleted or updated; NULL for an INSERT.
    pub fn rowid(&self) -> (r: &ValueRef)
        ensures
            *r == self.spec_values()[0],
    {
        proof {
            use_type_invariant(self);
        }
        &self.values[0]
    }

    /// The new rowid and column values of an INSERT or UPDATE; empty for a DELETE.
    pub fn args(&self) -> (a: &[ValueRef])
        ensures
            a@ == self.spec_values().subrange(1, self.spec_values().len() as int),
    {
        proof {
            use_type_invariant(self);
        }
        vstd::slice::slice_subrange(self.values.as_slice(), 1, self.values.len())
    }

    /// The ON CONFLICT mode of the statement; `Abort` before SQLite 3.7.7.
    pub fn conflict_mode(&self) -> (m: ConflictMode)
        ensures
            m == (if self.spec_version() >= VTAB_CONFIG_VERSION {
                conflict_mode_of(self.spec_conflict())
            } else {
                ConflictMode::Abort
            }),
    {
        proof {
            use_type_invariant(self);
        }
        if self.version >= VTAB_CONFIG_VERSION {
            ConflictMode::from_sqlite(self.conflict)
        } else {
            ConflictMode::Abort
        }
    }
}

/// The environment of [VTabCursor::column]: the value that the column gets.
pub struct ColumnContext {
    version: i32,
    nochange: bool,
    result: Option<FunctionResult>,
}

impl ColumnContext {
    pub closed spec fn spec_version(&self) -> i32 {
        self.version
    }

    pub closed spec fn spec_nochange(&self) -> bool {
        self.nochange
    }

    pub closed spec fn spec_result(&self) -> Option<FunctionResult> {
        self.result
    }

    /// The context of fetching a column on SQLite of the given version, with what
    /// `sqlite3_vtab_nochange` reported; no value is set yet.
    pub fn new(version: i32, nochange: bool) -> (c: ColumnContext)
        ensures
            c.spec_version() == version,
            c.spec_nochange() == nochange,
            c.spec_result() is None,
    {
        ColumnContext { version, nochange, result: None }
    }

    /// Whether the column is fetched for an UPDATE that leaves it unchanged; always false
    /// before SQLite 3.22.0.
    pub fn nochange(&self) -> (b: bool)
        ensures
            b == (self.spec_version() >= NOCHANGE_VERSION && self.spec_nochange()),
    {
        self.version >= NOCHANGE_VERSION && self.nochange
    }

    /// Assign the given value to the column. This always returns Ok.
    pub fn set_result<R: ToContextResult>(&mut self, val: R) -> (r: Result<()>)
        ensures
            r is Ok,
            final(self).spec_result() matches Some(x) && val.describes(x),
            final(self).spec_version() == old(self).spec_version(),
            final(self).spec_nochange() == old(self).spec_nochange(),
    {
        self.result = Some(val.into_result());
        Ok(())
    }

    /// Take the value that was set, leaving none.
    pub fn take_result(&mut self) -> (r: Option<FunctionResult>)
        ensures
            r == old(self).spec_result(),
            final(self).spec_result() is None,
    {
        let r = self.result.take();
        r
    }
}

} // verus!
