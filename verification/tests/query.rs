use sqlite3_ext::{Blob, Result, TestHelpers, Value, SQLITE_EMPTY, SQLITE_MISMATCH, SQLITE_MISUSE};

#[test]
fn invalid_execute() {
    let h = TestHelpers::new().unwrap();
    let err = h.db.execute("SELECT 1", ());
    assert_eq!(err, Err(SQLITE_MISUSE()));
}

#[test]
fn empty_statement() {
    let h = TestHelpers::new().unwrap();
    let err = match h.db.prepare("") {
        Err(e) => e,
        Ok(_) => panic!("empty SQL was prepared"),
    };
    assert_eq!(err, SQLITE_MISUSE());
}

#[test]
fn named_params() -> Result<()> {
    let h = TestHelpers::new()?;
    let mut stmt = h.db.prepare("VALUES (:first_value), (?), (:second_value), (?)")?;

    let mut param_names = Vec::with_capacity(stmt.parameter_count());
    for i in 1..=stmt.parameter_count() {
        param_names.push(stmt.parameter_name(i));
    }
    assert_eq!(
        param_names,
        vec!(
            Some(":first_value".to_owned()),
            None,
            Some(":second_value".to_owned()),
            None
        )
    );

    stmt.query(((":second_value", 1), 2, (":first_value", 3), 4))?;
    let mut ret: Vec<i32> = Vec::new();
    while let Some(r) = stmt.next()? {
        ret.push(r.column(0).get_i32());
    }
    assert_eq!(ret, vec![3, 2, 1, 4]);
    Ok(())
}

#[test]
fn reuse_statement() -> Result<()> {
    let h = TestHelpers::new()?;
    let mut stmt = h.db.prepare("SELECT ?")?;

    let ret = stmt.query_row(vec![1], |r| Ok(r.column(0).get_i32()))?;
    assert_eq!(ret, 1);
    let ret = stmt.query_row(vec![2], |r| Ok(r.column(0).get_i32()))?;
    assert_eq!(ret, 2);
    // Ensure that bindings were cleared out
    let ret = stmt.query_row((), |r| Ok(r.column(0).value().to_owned()?))?;
    assert_eq!(ret, Value::Null);
    Ok(())
}

#[test]
fn execute_counts_changes() -> Result<()> {
    let h = TestHelpers::new()?;
    h.db.execute("CREATE TABLE tbl(col)", ())?;
    let n = h.db.execute("INSERT INTO tbl VALUES (1), (2), (3)", ())?;
    assert_eq!(n, 3);
    Ok(())
}

#[test]
fn insert_returns_rowid() -> Result<()> {
    let h = TestHelpers::new()?;
    h.db.execute("CREATE TABLE tbl(col)", ())?;
    assert_eq!(h.db.insert("INSERT INTO tbl VALUES (10)", ())?, 1);
    assert_eq!(h.db.insert("INSERT INTO tbl VALUES (20)", ())?, 2);
    Ok(())
}

#[test]
fn query_row_without_rows_is_empty() -> Result<()> {
    let h = TestHelpers::new()?;
    h.db.execute("CREATE TABLE tbl(col)", ())?;
    let r = h.db.query_row("SELECT col FROM tbl", (), |r| Ok(r.column(0).get_i64()));
    assert_eq!(r, Err(SQLITE_EMPTY()));
    Ok(())
}

#[test]
fn query_row_with_two_rows_is_misuse() -> Result<()> {
    let h = TestHelpers::new()?;
    let r = h.db.query_row("VALUES (1), (2)", (), |r| Ok(r.column(0).get_i64()));
    assert_eq!(r, Err(SQLITE_MISUSE()));
    Ok(())
}

#[test]
fn values_other_than_floats_come_back_as_bound() -> Result<()> {
    let h = TestHelpers::new()?;
    let mut stmt = h.db.prepare("VALUES (?), (?), (?), (?)")?;
    stmt.query(vec![
        Value::Integer(1),
        Value::Text("owned string".to_owned()),
        Value::Blob(Blob::from([255, 254, 253])),
        Value::Null,
    ])?;
    let mut ret: Vec<Value> = Vec::new();
    while let Some(r) = stmt.next()? {
        ret.push(r.column(0).value().to_owned()?);
    }
    assert_eq!(
        ret,
        vec![
            Value::Integer(1),
            Value::Text("owned string".to_owned()),
            Value::Blob(Blob::from([255, 254, 253])),
            Value::Null,
        ]
    );
    Ok(())
}

#[test]
fn binding_a_float_is_refused() -> Result<()> {
    let h = TestHelpers::new()?;
    let mut stmt = h.db.prepare("VALUES (?)")?;
    let bits = std::f64::consts::PI.to_bits();
    assert_eq!(stmt.query(vec![Value::Float(bits)]), Err(SQLITE_MISMATCH()));
    Ok(())
}

#[test]
fn next_after_the_end_stays_none() -> Result<()> {
    let h = TestHelpers::new()?;
    let mut stmt = h.db.prepare("VALUES (1)")?;
    assert!(stmt.next()?.is_some());
    assert!(stmt.next()?.is_none());
    assert!(stmt.next()?.is_none());
    Ok(())
}

#[test]
fn bad_sql_reports_sqlite_message() {
    let h = TestHelpers::new().unwrap();
    let err = match h.db.prepare("SELEC 1") {
        Err(e) => e,
        Ok(_) => panic!("bad SQL was prepared"),
    };
    assert!(err.to_string().contains("syntax error"));
}

#[test]
fn position_zero_is_out_of_range() -> Result<()> {
    let h = TestHelpers::new()?;
    let mut stmt = h.db.prepare("SELECT ?")?;
    let r = stmt.bind_value(0, &sqlite3_ext::RawValue::Integer(1));
    assert_eq!(r, Err(sqlite3_ext::SQLITE_RANGE()));
    Ok(())
}

#[test]
fn parameter_names_and_positions() -> Result<()> {
    let h = TestHelpers::new()?;
    let stmt = h.db.prepare("VALUES (:a), (?), (:b), (:a)")?;
    assert_eq!(stmt.parameter_count(), 3);
    assert_eq!(stmt.parameter_name(0), None);
    assert_eq!(stmt.parameter_name(1), Some(":a".to_owned()));
    assert_eq!(stmt.parameter_name(2), None);
    assert_eq!(stmt.parameter_name(3), Some(":b".to_owned()));
    assert_eq!(stmt.parameter_name(4), None);
    assert_eq!(stmt.parameter_position(":b"), Some(3));
    assert_eq!(stmt.parameter_position(":a"), Some(1));
    assert_eq!(stmt.parameter_position(":zz"), None);
    Ok(())
}

#[test]
fn rows_have_the_column_count() -> Result<()> {
    let h = TestHelpers::new()?;
    let mut stmt = h.db.prepare("SELECT 1, 2")?;
    assert_eq!(stmt.column_count(), 2);
    let n = stmt.next()?.map(|r| r.len());
    assert_eq!(n, Some(2));
    assert_eq!(stmt.column_count(), 2);
    Ok(())
}


#[test]
fn prepared_statement_keeps_its_sql() -> Result<()> {
    let h = TestHelpers::new()?;
    let stmt = h.db.prepare("SELECT 1")?;
    assert_eq!(stmt.sql(), "SELECT 1");
    Ok(())
}

#[test]
fn blank_sql_is_misuse() {
    let h = TestHelpers::new().unwrap();
    assert!(matches!(h.db.prepare(" \t\r\n"), Err(e) if e == SQLITE_MISUSE()));
    assert!(matches!(h.db.prepare("-- only a comment"), Err(e) if e == SQLITE_MISUSE()));
}

#[test]
fn database_keeps_its_path_and_flags() {
    let h = TestHelpers::new().unwrap();
    assert_eq!(h.db.path(), ":memory:");
    assert_eq!(h.db.flags().bits(), 0x02 | 0x04);
}
