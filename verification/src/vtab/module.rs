//! Virtual table modules: which of SQLite's `sqlite3_module` entry points a table fills in.
//!
//! A [ModuleDescription] says, entry point by entry point, which code SQLite reaches through
//! it; registering the module builds the `sqlite3_module` from it.
use vstd::prelude::*;
use std::marker::PhantomData;
use crate::engine;
use crate::types::{Error, Result};
use super::{CreateVTab, FindFunctionVTab, RenameVTab, TransactionVTab, UpdateVTab, VTab};

verus! {

/// The SQLite version from which savepoints of virtual tables exist.
pub const SAVEPOINT_VERSION: i32 = 3_007_007;

/// The SQLite version from which eponymous-only tables exist.
pub const EPONYMOUS_ONLY_VERSION: i32 = 3_009_000;

/// The SQLite version from which xShadowName exists.
pub const SHADOW_NAME_VERSION: i32 = 3_026_000;

/// The code that an xCreate, xConnect or xDestroy entry point runs.
#[derive(Debug, Eq, PartialEq, Clone, Copy, Structural)]
pub enum EntryPoint {
    /// `CreateVTab::create`.
    Create,
    /// `VTab::connect`.
    Connect,
    /// `CreateVTab::create`, then `TransactionVTab::begin`.
    CreateThenBegin,
    /// `VTab::connect`, then `TransactionVTab::begin`.
    ConnectThenBegin,
    /// `CreateVTab::destroy`.
    Destroy,
    /// `VTab::disconnect`.
    Disconnect,
}

/// The three kinds of module.
#[derive(Debug, Eq, PartialEq, Clone, Copy, Structural)]
pub enum ModuleKind {
    /// Created with CREATE VIRTUAL TABLE.
    Standard,
    /// Available under the module's name, and with CREATE VIRTUAL TABLE as well.
    Eponymous,
    /// Available under the module's name only.
    EponymousOnly,
}

/// What a `sqlite3_module` holds. xBestIndex, xDisconnect, xOpen, xClose, xFilter, xNext,
/// xEof, xColumn and xRowid are always filled in.
#[derive(Debug, Eq, PartialEq, Clone, Copy, Structural)]
pub struct ModuleDescription {
    /// The kind of module.
    pub kind: ModuleKind,
    /// `iVersion`.
    pub version: i32,
    /// `xCreate`, where there is one.
    pub create: Option<EntryPoint>,
    /// `xConnect`.
    pub connect: EntryPoint,
    /// `xDestroy`.
    pub destroy: EntryPoint,
    /// `xUpdate`.
    pub update: bool,
    /// `xBegin`, `xSync` and `xCommit`.
    pub transactions: bool,
    /// `xRollback`, `xSavepoint`, `xRelease` and `xRollbackTo`.
    pub savepoints: bool,
    /// `xFindFunction`.
    pub find_function: bool,
    /// `xRename`.
    pub rename: bool,
    /// `xShadowName`.
    pub shadow_name: bool,
}

/// A description with only the entry points every module has, and xCreate, xConnect and
/// xDestroy as given.
pub open spec fn base_description(
    kind: ModuleKind,
    create: Option<EntryPoint>,
    connect: EntryPoint,
    destroy: EntryPoint,
) -> ModuleDescription {
    ModuleDescription {
        kind,
        version: 0,
        create,
        connect,
        destroy,
        update: false,
        transactions: false,
        savepoints: false,
        find_function: false,
        rename: false,
        shadow_name: false,
    }
}

fn base(kind: ModuleKind, create: Option<EntryPoint>, connect: EntryPoint, destroy: EntryPoint) -> (d: ModuleDescription)
    ensures
        d == base_description(kind, create, connect, destroy),
{
    ModuleDescription {
        kind,
        version: 0,
        create,
        connect,
        destroy,
        update: false,
        transactions: false,
        savepoints: false,
        find_function: false,
        rename: false,
        shadow_name: false,
    }
}

/// The description of a standard module on SQLite of the given version; from 3.26.0 a
/// table with shadow tables gets xShadowName and `iVersion` 3.
pub open spec fn standard_description(sqlite_version: i32, has_shadow_names: bool) -> ModuleDescription {
    let d = base_description(
        ModuleKind::Standard,
        Some(EntryPoint::Create),
        EntryPoint::Connect,
        EntryPoint::Destroy,
    );
    if sqlite_version >= SHADOW_NAME_VERSION && has_shadow_names {
        ModuleDescription { version: 3, shadow_name: true, ..d }
    } else {
        d
    }
}

fn standard(sqlite_version: i32, has_shadow_names: bool) -> (d: ModuleDescription)
    ensures
        d == standard_description(sqlite_version, has_shadow_names),
{
    let mut d = base(ModuleKind::Standard, Some(EntryPoint::Create), EntryPoint::Connect, EntryPoint::Destroy);
    if sqlite_version >= SHADOW_NAME_VERSION && has_shadow_names {
        d.version = 3;
        d.shadow_name = true;
    }
    d
}

/// The description after adding transactions, on SQLite of the given version: the table
/// begins one as it is connected (or created), xBegin, xSync and xCommit are filled in,
/// and from 3.7.7 also the savepoint entry points, with `iVersion` at least 2.
pub open spec fn with_transactions_description(d: ModuleDescription, sqlite_version: i32) -> ModuleDescription {
    let d1 = match d.kind {
        ModuleKind::Standard => ModuleDescription { create: Some(EntryPoint::CreateThenBegin), ..d },
        ModuleKind::Eponymous => ModuleDescription {
            create: Some(EntryPoint::ConnectThenBegin),
            connect: EntryPoint::ConnectThenBegin,
            ..d
        },
        ModuleKind::EponymousOnly => d,
    };
    let d2 = ModuleDescription { transactions: true, ..d1 };
    if sqlite_version >= SAVEPOINT_VERSION {
        ModuleDescription {
            version: if d2.version >= 2 { d2.version } else { 2 },
            savepoints: true,
            ..d2
        }
    } else {
        d2
    }
}

fn add_transactions(d: ModuleDescription, sqlite_version: i32) -> (r: ModuleDescription)
    ensures
        r == with_transactions_description(d, sqlite_version),
{
    let mut r = d;
    match d.kind {
        ModuleKind::Standard => {
            r.create = Some(EntryPoint::CreateThenBegin);
        },
        ModuleKind::Eponymous => {
            r.create = Some(EntryPoint::ConnectThenBegin);
            r.connect = EntryPoint::ConnectThenBegin;
        },
        ModuleKind::EponymousOnly => {},
    }
    r.transactions = true;
    if sqlite_version >= SAVEPOINT_VERSION {
        if r.version < 2 {
            r.version = 2;
        }
        r.savepoints = true;
    }
    r
}

/// Adding transactions a second time changes nothing.
pub proof fn lemma_transactions_idempotent(d: ModuleDescription, sqlite_version: i32)
    ensures
        with_transactions_description(with_transactions_description(d, sqlite_version), sqlite_version)
            == with_transactions_description(d, sqlite_version),
{
}

/// Whatever is added, a module keeps its kind, and the kinds differ in how a table comes
/// into being: a standard table is created with `create`, an eponymous one is connected in
/// its place, and an eponymous-only one has no xCreate.
pub proof fn lemma_create_entry_point(d: ModuleDescription, sqlite_version: i32)
    requires
        d.kind == ModuleKind::EponymousOnly ==> d.create is None,
    ensures
        ({
            let t = with_transactions_description(d, sqlite_version);
            &&& t.kind == d.kind
            &&& d.kind == ModuleKind::Standard ==> t.create == Some(EntryPoint::CreateThenBegin)
            &&& d.kind == ModuleKind::Eponymous ==> t.create == Some(EntryPoint::ConnectThenBegin)
                && t.connect == EntryPoint::ConnectThenBegin
            &&& d.kind == ModuleKind::EponymousOnly ==> t.create is None
        }),
{
}

/// On any SQLite from 3.7.7, a standard module given transactions gets xBegin, xSync,
/// xCommit and the savepoint entry points, with `iVersion` 2; or, from 3.26.0 for a table
/// that names shadow tables, `iVersion` 3 with xShadowName. Before 3.7.7 it gets no
/// savepoint entry points.
pub proof fn lemma_standard_transactions_by_version(v: i32, shadow: bool)
    ensures
        ({
            let t = with_transactions_description(standard_description(v, shadow), v);
            &&& t.transactions
            &&& t.savepoints == (v >= SAVEPOINT_VERSION)
            &&& t.shadow_name == (v >= SHADOW_NAME_VERSION && shadow)
            &&& v >= SAVEPOINT_VERSION ==> t.version == (if v >= SHADOW_NAME_VERSION && shadow { 3i32 } else { 2i32 })
            &&& t.create == Some(EntryPoint::CreateThenBegin)
        }),
{
}

/// The linked SQLite has every feature that modules use: savepoints, eponymous-only tables
/// and xShadowName.
pub proof fn lemma_linked_version_has_module_features()
    ensures
        crate::engine::LINKED_VERSION >= SAVEPOINT_VERSION,
        crate::engine::LINKED_VERSION >= EPONYMOUS_ONLY_VERSION,
        crate::engine::LINKED_VERSION >= SHADOW_NAME_VERSION,
{
}

/// A virtual table module: a description of its entry points, and ways to add the ones
/// that the table's traits provide.
pub trait Module<'vtab, T: VTab<'vtab> + 'vtab>: Sized {
    /// The description of the module.
    spec fn spec_description(&self) -> ModuleDescription;

    /// The SQLite version the module was made for.
    spec fn spec_sqlite_version(&self) -> i32;

    /// The description of the module.
    fn description(&self) -> (d: ModuleDescription)
        ensures
            d == self.spec_description(),
    ;

    /// Fill in xUpdate.
    fn with_update(self) -> (m: Self)
        where T: UpdateVTab<'vtab>,
        ensures
            m.spec_description() == (ModuleDescription { update: true, ..self.spec_description() }),
            m.spec_sqlite_version() == self.spec_sqlite_version(),
    ;

    /// Fill in the transaction entry points.
    fn with_transactions(self) -> (m: Self)
        where T: TransactionVTab<'vtab>,
        ensures
            m.spec_description() == with_transactions_description(
                self.spec_description(),
                self.spec_sqlite_version(),
            ),
            m.spec_sqlite_version() == self.spec_sqlite_version(),
    ;

    /// Fill in xFindFunction.
    fn with_find_function(self) -> (m: Self)
        where T: FindFunctionVTab<'vtab>,
        ensures
            m.spec_description() == (ModuleDescription {
                find_function: true,
                ..self.spec_description()
            }),
            m.spec_sqlite_version() == self.spec_sqlite_version(),
    ;

    /// Fill in xRename.
    fn with_rename(self) -> (m: Self)
        where T: RenameVTab<'vtab>,
        ensures
            m.spec_description() == (ModuleDescription { rename: true, ..self.spec_description() }),
            m.spec_sqlite_version() == self.spec_sqlite_version(),
    ;
}

/// A module whose tables are made with CREATE VIRTUAL TABLE.
pub struct StandardModule<'vtab, T: VTab<'vtab>> {
    base: ModuleDescription,
    sqlite_version: i32,
    phantom: PhantomData<&'vtab T>,
}

/// A module whose table is available under the module's name, and can also be made with
/// CREATE VIRTUAL TABLE.
pub struct EponymousModule<'vtab, T: VTab<'vtab>> {
    base: ModuleDescription,
    sqlite_version: i32,
    phantom: PhantomData<&'vtab T>,
}

/// A module whose table is available under the module's name only; needs SQLite 3.9.0.
pub struct EponymousOnlyModule<'vtab, T: VTab<'vtab>> {
    base: ModuleDescription,
    sqlite_version: i32,
    phantom: PhantomData<&'vtab T>,
}

impl<'vtab, T: CreateVTab<'vtab> + 'vtab> StandardModule<'vtab, T> {
    /// The module on SQLite of the given version. xShadowName is filled in from SQLite 3.26.0
    /// where the table's `shadow_names` lists any.
    pub fn new_for_version(sqlite_version: i32) -> (m: Self)
        ensures
            sqlite_version < SHADOW_NAME_VERSION ==> m.spec_description() == standard_description(
                sqlite_version,
                false,
            ),
            sqlite_version >= SHADOW_NAME_VERSION ==> exists|names: Vec<&'static str>|
                #[trigger] call_ensures(T::shadow_names, (), names) && m.spec_description()
                    == standard_description(sqlite_version, names@.len() > 0),
            m.spec_sqlite_version() == sqlite_version,
    {
        let mut shadow = false;
        if sqlite_version >= SHADOW_NAME_VERSION {
            let names = T::shadow_names();
            shadow = names.len() > 0;
            proof {
                assert(call_ensures(T::shadow_names, (), names));
            }
        }
        let d = standard(sqlite_version, shadow);
        StandardModule { base: d, sqlite_version, phantom: PhantomData }
    }

    /// The module on the SQLite in use, the linked one: xShadowName is filled in where the
    /// table's `shadow_names` lists any.
    pub fn new() -> (m: Self)
        ensures
            exists|shadow: bool| m.spec_description() == standard_description(m.spec_sqlite_version(), shadow),
            m.spec_sqlite_version() == engine::LINKED_VERSION,
            exists|names: Vec<&'static str>|
                #[trigger] call_ensures(T::shadow_names, (), names) && m.spec_description()
                    == standard_description(engine::LINKED_VERSION, names@.len() > 0),
    {
        Self::new_for_version(engine::version_number())
    }
}

impl<'vtab, T: VTab<'vtab> + 'vtab> EponymousModule<'vtab, T> {
    /// The module on SQLite of the given version.
    pub fn new_for_version(sqlite_version: i32) -> (m: Self)
        ensures
            m.spec_description() == base_description(
                ModuleKind::Eponymous,
                Some(EntryPoint::Connect),
                EntryPoint::Connect,
                EntryPoint::Disconnect,
            ),
            m.spec_sqlite_version() == sqlite_version,
    {
        EponymousModule {
            base: base(ModuleKind::Eponymous, Some(EntryPoint::Connect), EntryPoint::Connect, EntryPoint::Disconnect),
            sqlite_version,
            phantom: PhantomData,
        }
    }

    /// The module on the SQLite in use.
    pub fn new() -> (m: Self)
        ensures
            m.spec_description() == base_description(
                ModuleKind::Eponymous,
                Some(EntryPoint::Connect),
                EntryPoint::Connect,
                EntryPoint::Disconnect,
            ),
            m.spec_sqlite_version() == engine::LINKED_VERSION,
    {
        Self::new_for_version(engine::version_number())
    }
}

impl<'vtab, T: VTab<'vtab> + 'vtab> EponymousOnlyModule<'vtab, T> {
    /// The module on SQLite of the given version; before 3.9.0 there is none.
    pub fn new_for_version(sqlite_version: i32) -> (r: Result<Self>)
        ensures
            sqlite_version >= EPONYMOUS_ONLY_VERSION <==> r is Ok,
            r matches Ok(m) ==> m.spec_description() == base_description(
                ModuleKind::EponymousOnly,
                None,
                EntryPoint::Connect,
                EntryPoint::Disconnect,
            ) && m.spec_sqlite_version() == sqlite_version,
            r matches Err(e) ==> e == Error::VersionNotSatisfied(EPONYMOUS_ONLY_VERSION),
    {
        if sqlite_version >= EPONYMOUS_ONLY_VERSION {
            Ok(EponymousOnlyModule {
                base: base(ModuleKind::EponymousOnly, None, EntryPoint::Connect, EntryPoint::Disconnect),
                sqlite_version,
                phantom: PhantomData,
            })
        } else {
            Err(Error::VersionNotSatisfied(EPONYMOUS_ONLY_VERSION))
        }
    }

    /// The module on the SQLite in use; before 3.9.0 there is none.
    pub fn new() -> (r: Result<Self>)
        ensures
            r matches Ok(m) ==> m.spec_description() == base_description(
                ModuleKind::EponymousOnly,
                None,
                EntryPoint::Connect,
                EntryPoint::Disconnect,
            ) && m.spec_sqlite_version() >= EPONYMOUS_ONLY_VERSION,
            r matches Err(e) ==> e == Error::VersionNotSatisfied(EPONYMOUS_ONLY_VERSION),
            r matches Ok(m) && m.spec_sqlite_version() == engine::LINKED_VERSION,
    {
        Self::new_for_version(engine::version_number())
    }
}

impl<'vtab, T: CreateVTab<'vtab> + 'vtab> Module<'vtab, T> for StandardModule<'vtab, T> {
    closed spec fn spec_description(&self) -> ModuleDescription {
        self.base
    }

    closed spec fn spec_sqlite_version(&self) -> i32 {
        self.sqlite_version
    }

    fn description(&self) -> (d: ModuleDescription) {
        self.base
    }

    fn with_update(self) -> (m: Self) {
        let mut d = self.base;
        d.update = true;
        StandardModule { base: d, sqlite_version: self.sqlite_version, phantom: PhantomData }
    }

    fn with_transactions(self) -> (m: Self) {
        let d = add_transactions(self.base, self.sqlite_version);
        StandardModule { base: d, sqlite_version: self.sqlite_version, phantom: PhantomData }
    }

    fn with_find_function(self) -> (m: Self) {
        let mut d = self.base;
        d.find_function = true;
        StandardModule { base: d, sqlite_version: self.sqlite_version, phantom: PhantomData }
    }

    fn with_rename(self) -> (m: Self) {
        let mut d = self.base;
        d.rename = true;
        StandardModule { base: d, sqlite_version: self.sqlite_version, phantom: PhantomData }
    }
}

impl<'vtab, T: VTab<'vtab> + 'vtab> Module<'vtab, T> for EponymousModule<'vtab, T> {
    closed spec fn spec_description(&self) -> ModuleDescription {
        self.base
    }

    closed spec fn spec_sqlite_version(&self) -> i32 {
        self.sqlite_version
    }

    fn description(&self) -> (d: ModuleDescription) {
        self.base
    }

    fn with_update(self) -> (m: Self) {
        let mut d = self.base;
        d.update = true;
        EponymousModule { base: d, sqlite_version: self.sqlite_version, phantom: PhantomData }
    }

    fn with_transactions(self) -> (m: Self) {
        let d = add_transactions(self.base, self.sqlite_version);
        EponymousModule { base: d, sqlite_version: self.sqlite_version, phantom: PhantomData }
    }

    fn with_find_function(self) -> (m: Self) {
        let mut d = self.base;
        d.find_function = true;
        EponymousModule { base: d, sqlite_version: self.sqlite_version, phantom: PhantomData }
    }

    fn with_rename(self) -> (m: Self) {
        let mut d = self.base;
        d.rename = true;
        EponymousModule { base: d, sqlite_version: self.sqlite_version, phantom: PhantomData }
    }
}

impl<'vtab, T: VTab<'vtab> + 'vtab> Module<'vtab, T> for EponymousOnlyModule<'vtab, T> {
    closed spec fn spec_description(&self) -> ModuleDescription {
        self.base
    }

    closed spec fn spec_sqlite_version(&self) -> i32 {
        self.sqlite_version
    }

    fn description(&self) -> (d: ModuleDescription) {
        self.base
    }

    fn with_update(self) -> (m: Self) {
        let mut d = self.base;
        d.update = true;
        EponymousOnlyModule { base: d, sqlite_version: self.sqlite_version, phantom: PhantomData }
    }

    fn with_transactions(self) -> (m: Self) {
        let d = add_transactions(self.base, self.sqlite_version);
        EponymousOnlyModule { base: d, sqlite_version: self.sqlite_version, phantom: PhantomData }
    }

    fn with_find_function(self) -> (m: Self) {
        let mut d = self.base;
        d.find_function = true;
        EponymousOnlyModule { base: d, sqlite_version: self.sqlite_version, phantom: PhantomData }
    }

    fn with_rename(self) -> (m: Self) {
        let mut d = self.base;
        d.rename = true;
        EponymousOnlyModule { base: d, sqlite_version: self.sqlite_version, phantom: PhantomData }
    }
}

} // verus!
