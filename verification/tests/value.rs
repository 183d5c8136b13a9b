use sqlite3_ext::{sqlite3_stricmp, Blob, Error, RawValue, Result, SqliteVersion, TestHelpers, Value, ValueRef, ValueType, SQLITE_MISMATCH};
use sqlite3_ext::function::FunctionResult;
use sqlite3_ext::globals::stricmp_for_version;
use sqlite3_ext::value::pointer_bytes;
use std::cmp::Ordering;

#[test]
fn stricmp_orders_without_case() {
    assert_eq!(sqlite3_stricmp("FOO", "bar"), Ordering::Greater);
    assert_eq!(sqlite3_stricmp("bar", "FOO"), Ordering::Less);
    assert_eq!(sqlite3_stricmp("bar", "BAR"), Ordering::Equal);
}

#[test]
fn stricmp_of_older_versions_compares_lengths() {
    assert_eq!(stricmp_for_version(3_006_016, "abc", "ABCD"), Ordering::Less);
    assert_eq!(stricmp_for_version(3_006_016, "abc", "ABC"), Ordering::Equal);
    assert_eq!(stricmp_for_version(3_045_000, "abc", "ABCD"), Ordering::Less);
}

#[test]
fn version_numbers() {
    assert!(SqliteVersion.as_i32() > 3_000_000);
    assert!(SqliteVersion.as_str().len() >= 5);
}

#[test]
fn integer_through_sqlite() -> Result<()> {
    let h = TestHelpers::new()?;
    h.with_value(69420i64, |val| {
        assert_eq!(val.value_type(), ValueType::Integer);
        assert_eq!(val.get_i64(), 69420);
        assert_eq!(val.get_str()?, Some("69420"));
        Ok(())
    })
}

#[test]
fn blob_through_sqlite() -> Result<()> {
    let h = TestHelpers::new()?;
    let bytes = b"my string";
    h.with_value(bytes, |val| {
        assert_eq!(val.value_type(), ValueType::Blob);
        assert_eq!(val.get_blob()?, Some(b"my string".as_slice()));
        Ok(())
    })
}

#[test]
fn null_through_sqlite() -> Result<()> {
    let h = TestHelpers::new()?;
    let null: Option<i64> = None;
    h.with_value(null, |val| {
        assert_eq!(val.value_type(), ValueType::Null);
        assert!(val.is_null());
        assert_eq!(val.get_blob()?, None);
        assert_eq!(val.get_str()?, None);
        Ok(())
    })
}

#[test]
fn text_through_sqlite() -> Result<()> {
    let h = TestHelpers::new()?;
    h.with_value("my string", |val| {
        assert_eq!(val.value_type(), ValueType::Text);
        assert_eq!(val.get_str()?, Some("my string"));
        assert_eq!(val.to_owned()?, Value::Text("my string".to_owned()));
        Ok(())
    })
}

#[test]
fn invalid_text_from_sql() -> Result<()> {
    let h = TestHelpers::new()?;
    h.with_value_from_sql("CAST(x'009f9296' AS TEXT)", |val| {
        assert_eq!(val.value_type(), ValueType::Text);
        let e = val.get_str().expect_err("invalid utf8");
        assert!(matches!(e, Error::Utf8Error(_)));
        Ok(())
    })
}

#[test]
fn errors_pass_through_with_value() {
    let h = TestHelpers::new().unwrap();
    let r = h.with_value(Error::Module("bad".to_owned()), |_| Ok(()));
    assert_eq!(r, Err(Error::Sqlite(1, Some("bad".to_owned()))));
}

#[test]
fn float_reads() {
    let v = ValueRef::new(RawValue::Float(2.5f64.to_bits(), b"2.5".to_vec()));
    assert_eq!(v.value_type(), ValueType::Float);
    assert_eq!(v.get_blob(), Ok(Some(b"2.5".as_slice())));
    assert_eq!(v.get_str(), Ok(Some("2.5")));
    assert_eq!(v.to_owned(), Ok(Value::Float(2.5f64.to_bits())));
}

#[test]
fn floats_from_sqlite_read_as_sqlite_text() -> Result<()> {
    let h = TestHelpers::new()?;
    h.with_value_from_sql("3.14159265358979", |val| {
        assert_eq!(val.value_type(), ValueType::Float);
        assert_eq!(val.get_str()?, Some("3.14159265358979"));
        Ok(())
    })?;
    h.with_value_from_sql("1.0e20", |val| {
        assert_eq!(val.get_str()?, Some("1.0e+20"));
        Ok(())
    })?;
    h.with_value_from_sql("2.5", |val| {
        assert_eq!(val.get_blob()?, Some(b"2.5".as_slice()));
        Ok(())
    })
}

#[test]
fn integers_read_as_text_and_truncate_to_i32() {
    let v = ValueRef::new(RawValue::Integer(-42));
    assert_eq!(v.get_str(), Ok(Some("-42")));
    assert_eq!(v.get_blob(), Ok(Some(b"-42".as_slice())));
    let big = ValueRef::new(RawValue::Integer(0x1_0000_0005));
    assert_eq!(big.get_i32(), 5);
    let b = ValueRef::new(RawValue::Blob(vec![1, 2]));
    assert_eq!(b.to_owned(), Ok(Value::Blob(Blob::from([1, 2]))));
}

#[test]
fn error_messages() {
    assert_eq!(Error::Sqlite(5, None).to_string(), "SQLite error 5");
    assert_eq!(Error::NotFound.to_string(), "not found");
    assert_eq!(Error::VersionNotSatisfied(3_008_002).to_string(), "requires SQLite version 3.8.2 or above");
    assert_eq!(Error::from_sqlite(0), Ok(()));
    assert_eq!(Error::from_sqlite(101), Ok(()));
    assert_eq!(Error::from_sqlite(12), Err(Error::NotFound));
    assert_eq!(Error::from_sqlite(1), Err(Error::Sqlite(1, None)));
}

#[test]
fn pointer_bytes_checks_length_and_subtype() {
    let v = ValueRef::with_subtype(RawValue::Blob(vec![1, 2, 3, 4, 5, 6, 7, 8]), 116);
    assert_eq!(v.subtype(), 116);
    assert_eq!(pointer_bytes(&v, 8, 116, 3_040_000), Ok(Some(vec![1, 2, 3, 4, 5, 6, 7, 8])));
    assert_eq!(pointer_bytes(&v, 16, 116, 3_040_000), Err(SQLITE_MISMATCH()));
    assert_eq!(pointer_bytes(&v, 8, 117, 3_040_000), Err(SQLITE_MISMATCH()));
    assert_eq!(pointer_bytes(&v, 8, 117, 3_008_000), Ok(Some(vec![1, 2, 3, 4, 5, 6, 7, 8])));
    let null = ValueRef::new(RawValue::Null);
    assert_eq!(null.subtype(), 0);
    assert_eq!(pointer_bytes(&null, 8, 116, 3_040_000), Ok(None));
    let three = ValueRef::new(RawValue::Blob(vec![1, 2, 3]));
    assert_eq!(pointer_bytes(&three, 8, 0, 3_040_000), Err(SQLITE_MISMATCH()));
    let empty_blob = ValueRef::new(RawValue::Blob(Vec::new()));
    assert_eq!(pointer_bytes(&empty_blob, 8, 0, 3_040_000), Err(SQLITE_MISMATCH()));
    let empty_text = ValueRef::new(RawValue::Text(Vec::new()));
    assert_eq!(pointer_bytes(&empty_text, 8, 0, 3_040_000), Err(SQLITE_MISMATCH()));
}

#[test]
fn stricmp_puts_a_proper_prefix_first() {
    assert_eq!(sqlite3_stricmp("ab", "ABC"), Ordering::Less);
    assert_eq!(sqlite3_stricmp("ABC", "ab"), Ordering::Greater);
}

#[test]
fn subtypes_pass_through_with_value() -> Result<()> {
    let h = TestHelpers::new()?;
    h.with_value(FunctionResult::Subtyped(RawValue::Blob(vec![9, 9]), 33), |val| {
        assert_eq!(val.value_type(), ValueType::Blob);
        assert_eq!(val.subtype(), 33);
        Ok(())
    })
}

#[test]
fn get_i64() {
    let h = TestHelpers::new().unwrap();
    let val = 69420i64;
    h.with_value(val, |val| {
        assert_eq!(val.value_type(), ValueType::Integer);
        assert_eq!(val.get_i64(), 69420);
        assert_eq!(val.debug_string(), "ValueRef::Integer(69420)");
        Ok(())
    })
    .unwrap();
}

#[test]
fn get_blob() {
    let h = TestHelpers::new().unwrap();
    let bytes = b"my string";
    h.with_value(bytes, |val| {
        assert_eq!(val.value_type(), ValueType::Blob);
        assert_eq!(val.get_blob()?, Some(b"my string".as_slice()));
        assert_eq!(
            val.debug_string(),
            "ValueRef::Blob([109, 121, 32, 115, 116, 114, 105, 110, 103])"
        );
        Ok(())
    })
    .unwrap();
}

#[test]
fn get_blob_null() {
    let h = TestHelpers::new().unwrap();
    let null: Option<i64> = None;
    h.with_value(null, |val| {
        assert_eq!(val.value_type(), ValueType::Null);
        assert_eq!(val.get_blob()?, None);
        assert_eq!(val.debug_string(), "ValueRef::Null");
        Ok(())
    })
    .unwrap();
}

#[test]
fn get_str() {
    let h = TestHelpers::new().unwrap();
    let string = "my string";
    h.with_value(string, |val| {
        assert_eq!(val.value_type(), ValueType::Text);
        assert_eq!(val.get_str()?, Some("my string"));
        assert_eq!(val.debug_string(), "ValueRef::Text(Ok(\"my string\"))");
        Ok(())
    })
    .unwrap();
}

#[test]
fn get_str_null() {
    let h = TestHelpers::new().unwrap();
    let null: Option<i64> = None;
    h.with_value(null, |val| {
        assert_eq!(val.value_type(), ValueType::Null);
        assert_eq!(val.get_str()?, None);
        assert_eq!(val.debug_string(), "ValueRef::Null");
        Ok(())
    })
    .unwrap();
}

#[test]
fn get_str_invalid() {
    let h = TestHelpers::new().unwrap();
    h.with_value_from_sql("CAST(x'009f9296' AS TEXT)", |val| {
        assert_eq!(val.value_type(), ValueType::Text);
        val.get_str().expect_err("invalid utf8");
        assert_eq!(
            val.debug_string(),
            "ValueRef::Text(Err(Utf8Error(Utf8Error { valid_up_to: 1, error_len: Some(1) })))"
        );
        Ok(())
    })
    .unwrap();
}

#[test]
fn with_value() {
    let h = TestHelpers::new().unwrap();
    let did_run = std::cell::Cell::new(false);
    h.with_value("input string", |val| {
        assert_eq!(val.get_str()?, Some("input string"));
        did_run.set(true);
        Ok(())
    })
    .unwrap();
    assert!(did_run.get());
}

#[test]
fn with_value_from_sql() {
    let h = TestHelpers::new().unwrap();
    let did_run = std::cell::Cell::new(false);
    h.with_value_from_sql("NULL", |val| {
        assert!(val.is_null());
        did_run.set(true);
        Ok(())
    })
    .unwrap();
    assert!(did_run.get());
}

#[test]
fn debug_string_of_negative_integer_and_float_bits() {
    let v = ValueRef::new(RawValue::Integer(-7));
    assert_eq!(v.debug_string(), "ValueRef::Integer(-7)");
    let f = ValueRef::new(RawValue::Float(4614256656552045848, b"3.14159265358979".to_vec()));
    assert_eq!(f.debug_string(), "ValueRef::Float(bits 4614256656552045848)");
    let q = ValueRef::new(RawValue::Text(b"say \"hi\"".to_vec()));
    assert_eq!(q.debug_string(), "ValueRef::Text(Ok(\"say \\\"hi\\\"\"))");
    let e = ValueRef::new(RawValue::Blob(Vec::new()));
    assert_eq!(e.debug_string(), "ValueRef::Blob([])");
}
