use sqlite3_ext::function::{Context, FunctionResult};
use sqlite3_ext::vtab::module::{EntryPoint, ModuleKind};
use sqlite3_ext::vtab::{
    ChangeInfo, ChangeType, ColumnContext, ConflictMode, ConstraintOp, CreateVTab, EponymousModule,
    EponymousOnlyModule, IndexInfo, Module, Overload, StandardModule, TransactionVTab, UpdateVTab,
    VTab, VTabConnection, VTabCursor, VTabFunctionList, VTabTransaction,
};
use sqlite3_ext::{Error, FallibleIteratorMut, RawValue, Result, RiskLevel, ValueList, ValueRef};

struct Table;
struct Cursor;
struct Txn;

impl<'vtab> VTab<'vtab> for Table {
    type Aux = ();
    type Cursor = Cursor;

    fn connect(_db: &mut VTabConnection, _aux: &'vtab (), _args: &[&str]) -> Result<(String, Self)> {
        Ok(("CREATE TABLE x(a)".to_owned(), Table))
    }

    fn best_index(&'vtab self, _index_info: &mut IndexInfo) -> Result<()> {
        Ok(())
    }

    fn open(&'vtab self) -> Result<Cursor> {
        Ok(Cursor)
    }
}

impl<'vtab> CreateVTab<'vtab> for Table {
    fn shadow_names() -> Vec<&'static str> {
        vec!["data"]
    }

    fn create(db: &mut VTabConnection, aux: &'vtab (), args: &[&str]) -> Result<(String, Self)> {
        Self::connect(db, aux, args)
    }

    fn destroy(&mut self) -> Result<()> {
        Ok(())
    }
}

impl<'vtab> UpdateVTab<'vtab> for Table {
    fn update(&'vtab self, _info: &mut ChangeInfo) -> Result<i64> {
        Ok(0)
    }
}

impl<'vtab> TransactionVTab<'vtab> for Table {
    type Transaction = Txn;

    fn begin(&'vtab self) -> Result<Txn> {
        Ok(Txn)
    }
}

impl<'vtab> VTabTransaction<'vtab> for Txn {
    fn sync(&mut self) -> Result<()> {
        Ok(())
    }
    fn commit(self) -> Result<()> {
        Ok(())
    }
    fn rollback(self) -> Result<()> {
        Ok(())
    }
    fn savepoint(&mut self, _n: i32) -> Result<()> {
        Ok(())
    }
    fn release(&mut self, _n: i32) -> Result<()> {
        Ok(())
    }
    fn rollback_to(&mut self, _n: i32) -> Result<()> {
        Ok(())
    }
}

impl<'vtab> VTabCursor<'vtab> for Cursor {
    fn filter(&mut self, _n: i32, _s: Option<&str>, _args: &mut [&mut ValueRef]) -> Result<()> {
        Ok(())
    }
    fn next(&mut self) -> Result<()> {
        Ok(())
    }
    fn eof(&mut self) -> bool {
        true
    }
    fn column(&mut self, idx: usize, context: &mut ColumnContext) -> Result<()> {
        context.set_result(idx as i64)
    }
    fn rowid(&mut self) -> Result<i64> {
        Ok(0)
    }
}

#[test]
fn standard_module_entry_points() {
    let m: StandardModule<Table> = StandardModule::new_for_version(3_026_000);
    let d = m.description();
    assert_eq!(d.kind, ModuleKind::Standard);
    assert_eq!(d.create, Some(EntryPoint::Create));
    assert_eq!(d.connect, EntryPoint::Connect);
    assert_eq!(d.destroy, EntryPoint::Destroy);
    assert!(d.shadow_name);
    assert_eq!(d.version, 3);
    let d = StandardModule::<Table>::new_for_version(3_025_000).description();
    assert!(!d.shadow_name);
    assert_eq!(d.version, 0);
}

#[test]
fn transactions_per_kind() {
    let d = StandardModule::<Table>::new_for_version(3_030_000)
        .with_update()
        .with_transactions()
        .description();
    assert!(d.update);
    assert!(d.transactions);
    assert!(d.savepoints);
    assert_eq!(d.create, Some(EntryPoint::CreateThenBegin));
    assert_eq!(d.version, 3);

    let d = EponymousModule::<Table>::new_for_version(3_007_006).with_transactions().description();
    assert_eq!(d.create, Some(EntryPoint::ConnectThenBegin));
    assert_eq!(d.connect, EntryPoint::ConnectThenBegin);
    assert_eq!(d.destroy, EntryPoint::Disconnect);
    assert!(d.transactions);
    assert!(!d.savepoints);
    assert_eq!(d.version, 0);

    let d = EponymousOnlyModule::<Table>::new_for_version(3_009_000)
        .unwrap()
        .with_transactions()
        .description();
    assert_eq!(d.create, None);
    assert_eq!(d.connect, EntryPoint::Connect);
    assert!(d.savepoints);
    assert_eq!(d.version, 2);
}

#[test]
fn eponymous_only_needs_3_9() {
    match EponymousOnlyModule::<Table>::new_for_version(3_008_011) {
        Err(e) => assert_eq!(e, Error::VersionNotSatisfied(3_009_000)),
        Ok(_) => panic!("should fail"),
    }
    assert!(EponymousOnlyModule::<Table>::new().is_ok());
}

#[test]
fn vtab_connection_config() {
    let mut c = VTabConnection::new(3_031_000);
    c.enable_constraints();
    c.set_risk_level(RiskLevel::DirectOnly);
    assert!(c.constraint_support());
    assert_eq!(c.risk_level(), Some(RiskLevel::DirectOnly));
    let mut old = VTabConnection::new(3_007_006);
    old.enable_constraints();
    old.set_risk_level(RiskLevel::Innocuous);
    assert!(!old.constraint_support());
    assert_eq!(old.risk_level(), None);
}

#[test]
fn change_types() {
    let delete = ChangeInfo::new(3_040_000, vec![ValueRef::new(RawValue::Integer(5))], 4);
    assert_eq!(delete.change_type(), ChangeType::Delete);
    assert_eq!(delete.args().len(), 0);
    let insert = ChangeInfo::new(
        3_040_000,
        vec![ValueRef::new(RawValue::Null), ValueRef::new(RawValue::Null), ValueRef::new(RawValue::Integer(1))],
        1,
    );
    assert_eq!(insert.change_type(), ChangeType::Insert);
    assert_eq!(insert.args().len(), 2);
    assert_eq!(insert.args()[1].get_i64(), 1);
    assert_eq!(insert.conflict_mode(), ConflictMode::Rollback);
    let update = ChangeInfo::new(
        3_000_000,
        vec![ValueRef::new(RawValue::Integer(3)), ValueRef::new(RawValue::Integer(3))],
        5,
    );
    assert_eq!(update.change_type(), ChangeType::Update);
    assert_eq!(update.rowid().get_i64(), 3);
    assert_eq!(update.conflict_mode(), ConflictMode::Abort);
}

#[test]
fn conflict_modes_decode() {
    assert_eq!(ConflictMode::from_sqlite(1), ConflictMode::Rollback);
    assert_eq!(ConflictMode::from_sqlite(2), ConflictMode::Ignore);
    assert_eq!(ConflictMode::from_sqlite(3), ConflictMode::Fail);
    assert_eq!(ConflictMode::from_sqlite(4), ConflictMode::Abort);
    assert_eq!(ConflictMode::from_sqlite(5), ConflictMode::Replace);
}

#[test]
fn column_context() {
    let mut c = ColumnContext::new(3_022_000, true);
    assert!(c.nochange());
    let mut cursor = Cursor;
    cursor.column(4, &mut c).unwrap();
    assert!(matches!(c.take_result(), Some(FunctionResult::Value(RawValue::Integer(4)))));
    assert!(!ColumnContext::new(3_021_000, true).nochange());
}

type Func = fn(&mut Context, &mut [&mut ValueRef]) -> Result<()>;
type Method = fn(&Table, &mut Context, &mut [&mut ValueRef]) -> Result<()>;

fn set_true(c: &mut Context, _: &mut [&mut ValueRef]) -> Result<()> {
    c.set_result(true)
}

fn fail(_: &mut Context, _: &mut [&mut ValueRef]) -> Result<()> {
    Err(Error::Module("nope".to_owned()))
}

fn passthrough(_: &Table, c: &mut Context, a: &mut [&mut ValueRef]) -> Result<()> {
    c.set_result(&*a[0])
}

#[test]
fn overloads_prefer_exact_arity() {
    let mut list: VTabFunctionList<Func, Method> = VTabFunctionList::new();
    list.add(-1, "f", None, set_true);
    list.add(2, "f", Some(ConstraintOp::Function(150)), fail);
    list.add_method(1, "g", None, passthrough);
    assert_eq!(list.len(), 3);
    assert_eq!(list.find(2, "f"), Some(1));
    assert_eq!(list.find(3, "f"), Some(0));
    assert_eq!(list.find(1, "g"), Some(2));
    assert_eq!(list.find(2, "g"), None);
    assert_eq!(list.find(1, "h"), None);
    assert_eq!(list.get(1).constraint(), Some(ConstraintOp::Function(150)));
    assert_eq!(list.get(2).name(), "g");
    assert_eq!(list.get(0).n_args(), -1);
}

#[test]
fn invoke_sets_results_and_errors() {
    let mut list: VTabFunctionList<Func, Method> = VTabFunctionList::new();
    list.add(0, "t", None, set_true);
    list.add(0, "e", None, fail);
    list.add_method(1, "p", None, passthrough);
    let table = Table;
    let mut c = Context::new();
    list.get(0).invoke(&table, &mut c, &mut []);
    assert!(matches!(c.take_result(), Some(FunctionResult::Value(RawValue::Integer(1)))));
    list.get(1).invoke(&table, &mut c, &mut []);
    match c.take_result() {
        Some(FunctionResult::Error(m)) => assert_eq!(m, "nope"),
        _ => panic!("error expected"),
    }
    let mut a = ValueRef::new(RawValue::Integer(33));
    list.get(2).invoke(&table, &mut c, &mut [&mut a]);
    assert!(matches!(c.take_result(), Some(FunctionResult::Value(RawValue::Integer(33)))));
    let _ = Overload::<Func, Method>::Function(set_true);
}

#[test]
fn value_list_hands_out_values_in_order() -> Result<()> {
    let mut base = ValueRef::with_list(
        RawValue::Null,
        vec![RawValue::Text(b"a1".to_vec()), RawValue::Text(b"b2".to_vec())],
    );
    let mut list = ValueList::from_value_ref_for_version(3_038_000, &mut base)?;
    assert_eq!(list.size_hint(), (2, Some(2)));
    let mut vals: Vec<String> = Vec::new();
    while let Some(x) = list.next()? {
        vals.push(x.get_str()?.unwrap().to_owned());
    }
    assert_eq!(vals, vec!("a1", "b2"));
    assert!(list.next()?.is_none());
    Ok(())
}

#[test]
fn value_list_map() -> Result<()> {
    let mut base = ValueRef::with_list(RawValue::Null, vec![RawValue::Integer(1), RawValue::Integer(2)]);
    let mut list = ValueList::from_value_ref_for_version(3_040_000, &mut base)?;
    let mut mapped = list.map(|v: &mut ValueRef| Ok(v.get_i64() * 10));
    let mut out = Vec::new();
    while let Some(x) = mapped.next()? {
        out.push(x);
    }
    assert_eq!(out, vec![10, 20]);
    Ok(())
}

#[test]
fn value_list_errors() {
    let mut plain = ValueRef::new(RawValue::Integer(1));
    match ValueList::from_value_ref_for_version(3_040_000, &mut plain) {
        Err(e) => assert_eq!(e, Error::Sqlite(1, None)),
        Ok(_) => panic!("should fail"),
    }
    let mut base = ValueRef::with_list(RawValue::Null, vec![]);
    match ValueList::from_value_ref_for_version(3_037_000, &mut base) {
        Err(e) => assert_eq!(e, Error::VersionNotSatisfied(3_038_000)),
        Ok(_) => panic!("should fail"),
    }
}
