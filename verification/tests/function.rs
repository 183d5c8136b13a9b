use sqlite3_ext::function::{
    aggregate_api, call_scalar, function_api, AggregateApi, AggregateFunction, AggregateSlot, Context,
    FromUserData, FunctionApi, FunctionOptions, FunctionResult, ToContextResult,
};
use sqlite3_ext::{Blob, Error, RawValue, Result, RiskLevel, Value, ValueRef};

const DETERMINISTIC: i32 = 0x800;
const DIRECTONLY: i32 = 0x80000;
const INNOCUOUS: i32 = 0x200000;

#[test]
fn default_options() {
    let o = FunctionOptions::default();
    assert_eq!(o.n_args(), -1);
    assert_eq!(o.flags(), 0);
}

#[test]
fn n_args_and_deterministic() {
    let o = FunctionOptions::default().set_n_args(2).set_deterministic(true);
    assert_eq!(o.n_args(), 2);
    assert_eq!(o.flags(), DETERMINISTIC);
    let o = o.set_deterministic(false);
    assert_eq!(o.flags(), 0);
    assert_eq!(o.n_args(), 2);
}

#[test]
fn risk_level_flags_exclude_each_other() {
    let o = FunctionOptions::default().set_deterministic(true);
    let o = o.set_risk_level_for_version(3_031_000, RiskLevel::DirectOnly);
    assert_eq!(o.flags(), DETERMINISTIC | DIRECTONLY);
    let o = o.set_risk_level_for_version(3_031_000, RiskLevel::Innocuous);
    assert_eq!(o.flags(), DETERMINISTIC | INNOCUOUS);
    let o = o.set_risk_level_for_version(3_030_000, RiskLevel::DirectOnly);
    assert_eq!(o.flags(), DETERMINISTIC | INNOCUOUS);
}

#[test]
fn risk_level_on_current_sqlite() {
    let o = FunctionOptions::default().set_risk_level(RiskLevel::Innocuous);
    assert_eq!(o.flags(), INNOCUOUS);
}

#[test]
fn registration_apis() {
    assert_eq!(function_api(3_007_003), FunctionApi::WithDestructor);
    assert_eq!(function_api(3_007_002), FunctionApi::Legacy);
    assert_eq!(aggregate_api(3_025_000), AggregateApi::Window);
    assert_eq!(aggregate_api(3_024_000), AggregateApi::Plain(FunctionApi::WithDestructor));
    assert_eq!(aggregate_api(3_007_000), AggregateApi::Plain(FunctionApi::Legacy));
}

fn text(r: FunctionResult) -> Vec<u8> {
    match r {
        FunctionResult::Value(RawValue::Text(t)) => t,
        _ => panic!("not text"),
    }
}

#[test]
fn results_of_plain_values() {
    assert!(matches!(().into_result(), FunctionResult::Value(RawValue::Null)));
    assert!(matches!(true.into_result(), FunctionResult::Value(RawValue::Integer(1))));
    assert!(matches!(false.into_result(), FunctionResult::Value(RawValue::Integer(0))));
    assert!(matches!(7i32.into_result(), FunctionResult::Value(RawValue::Integer(7))));
    assert!(matches!((-9i64).into_result(), FunctionResult::Value(RawValue::Integer(-9))));
    assert_eq!(text("foo".into_result()), b"foo".to_vec());
    assert_eq!(text("owned".to_owned().into_result()), b"owned".to_vec());
    match Blob::from([1, 2]).into_result() {
        FunctionResult::Value(RawValue::Blob(b)) => assert_eq!(b, vec![1, 2]),
        _ => panic!("not a blob"),
    }
    assert!(matches!(None::<i64>.into_result(), FunctionResult::Value(RawValue::Null)));
    assert!(matches!(Some(3i64).into_result(), FunctionResult::Value(RawValue::Integer(3))));
    assert!(matches!(Value::Integer(4).into_result(), FunctionResult::Value(RawValue::Integer(4))));
}

#[test]
fn results_of_errors() {
    match Error::Sqlite(19, Some("constraint failed".to_owned())).into_result() {
        FunctionResult::Error(m) => assert_eq!(m, "constraint failed"),
        _ => panic!("wrong result"),
    }
    assert!(matches!(Error::Sqlite(7, None).into_result(), FunctionResult::ErrorCode(7)));
    assert!(matches!(Error::NoChange.into_result(), FunctionResult::Unchanged));
    match Error::NotFound.into_result() {
        FunctionResult::Error(m) => assert_eq!(m, "not found"),
        _ => panic!("wrong result"),
    }
    match Error::VersionNotSatisfied(3_038_000).into_result() {
        FunctionResult::Error(m) => assert_eq!(m, "requires SQLite version 3.38.0 or above"),
        _ => panic!("wrong result"),
    }
    let r: Result<i64> = Err(Error::Module("boom".to_owned()));
    match r.into_result() {
        FunctionResult::Error(m) => assert_eq!(m, "boom"),
        _ => panic!("wrong result"),
    }
}

#[test]
fn context_keeps_last_result() {
    let mut c = Context::new();
    assert!(c.take_result().is_none());
    c.set_result(1i64).unwrap();
    c.set_result("two").unwrap();
    assert_eq!(text(c.take_result().unwrap()), b"two".to_vec());
    assert!(c.take_result().is_none());
}

#[test]
fn scalar_result_becomes_the_call_result() {
    let mut c = Context::new();
    let mut a = ValueRef::new(RawValue::Integer(20));
    let mut args = [&mut a];
    call_scalar(&|_: &mut Context, args: &mut [&mut ValueRef]| args[0].get_i64() + 1, &mut c, &mut args);
    assert!(matches!(c.take_result(), Some(FunctionResult::Value(RawValue::Integer(21)))));
}

struct Join {
    sep: &'static str,
    acc: Vec<String>,
}

impl FromUserData<&'static str> for Join {
    fn from_user_data(val: &&'static str) -> Self {
        Join { sep: *val, acc: vec![] }
    }
}

impl AggregateFunction<&'static str> for Join {
    type Output = String;

    fn step(&mut self, _: &Context, args: &mut [&mut ValueRef]) -> Result<()> {
        self.acc.push(args[0].get_str()?.unwrap_or("").to_owned());
        Ok(())
    }

    fn value(&self, _: &Context) -> String {
        self.acc.join(self.sep)
    }

    fn inverse(&mut self, _: &Context, _: &mut [&mut ValueRef]) -> Result<()> {
        self.acc.remove(0);
        Ok(())
    }
}

#[test]
fn aggregate_slot_gathers_rows() {
    let user_data: &'static str = "|";
    let mut slot: AggregateSlot<Join> = AggregateSlot::new();
    let mut c = Context::new();
    for v in [RawValue::Text(b"a".to_vec()), RawValue::Text(b"1".to_vec()), RawValue::Null] {
        let mut a = ValueRef::new(v);
        let mut args = [&mut a];
        slot.step(&user_data, &mut c, &mut args);
    }
    assert!(c.take_result().is_none());
    slot.finish(&user_data, &mut c);
    assert_eq!(text(c.take_result().unwrap()), b"a|1|".to_vec());
}

#[test]
fn aggregate_slot_without_rows_gives_default_value() {
    let user_data: &'static str = ",";
    let mut slot: AggregateSlot<Join> = AggregateSlot::new();
    let mut c = Context::new();
    slot.finish(&user_data, &mut c);
    assert_eq!(text(c.take_result().unwrap()), b"".to_vec());
}

#[test]
fn aggregate_slot_window_inverse() {
    let user_data: &'static str = "-";
    let mut slot: AggregateSlot<Join> = AggregateSlot::new();
    let mut c = Context::new();
    for v in [b"x".to_vec(), b"y".to_vec()] {
        let mut a = ValueRef::new(RawValue::Text(v));
        let mut args = [&mut a];
        slot.step(&user_data, &mut c, &mut args);
    }
    slot.current(&user_data, &mut c);
    assert_eq!(text(c.take_result().unwrap()), b"x-y".to_vec());
    let mut a = ValueRef::new(RawValue::Text(b"x".to_vec()));
    let mut args = [&mut a];
    slot.inverse(&user_data, &mut c, &mut args);
    slot.current(&user_data, &mut c);
    assert_eq!(text(c.take_result().unwrap()), b"y".to_vec());
}

#[derive(Default)]
struct Count(i64);

impl AggregateFunction<()> for Count {
    type Output = i64;

    fn step(&mut self, _: &Context, _: &mut [&mut ValueRef]) -> Result<()> {
        self.0 += 1;
        Ok(())
    }

    fn value(&self, _: &Context) -> i64 {
        self.0
    }

    fn inverse(&mut self, _: &Context, _: &mut [&mut ValueRef]) -> Result<()> {
        self.0 -= 1;
        Ok(())
    }
}

#[test]
fn default_types_come_from_user_data() {
    let mut slot: AggregateSlot<Count> = AggregateSlot::new();
    let mut c = Context::new();
    for _ in 0..3 {
        let mut a = ValueRef::new(RawValue::Null);
        let mut args = [&mut a];
        slot.step(&(), &mut c, &mut args);
    }
    slot.finish(&(), &mut c);
    assert!(matches!(c.take_result(), Some(FunctionResult::Value(RawValue::Integer(3)))));
}
