use sqlite3_ext::transaction::{begin_sql, commit_sql, rollback_sql, TransactionState};
use sqlite3_ext::{Result, TestHelpers, TransactionType};

fn count(h: &TestHelpers) -> Result<i64> {
    h.db.query_row("SELECT COUNT(*) FROM tbl", (), |r| Ok(r.column(0).get_i64()))
}

#[test]
fn commit() -> Result<()> {
    let h = TestHelpers::new()?;
    h.db.execute("CREATE TABLE tbl(col)", ())?;
    let txn = h.db.transaction(TransactionType::Deferred)?;
    txn.execute("INSERT INTO tbl VALUES (1)", ())?;
    txn.commit()?;
    assert_eq!(count(&h)?, 1);
    Ok(())
}

#[test]
fn rollback() -> Result<()> {
    let h = TestHelpers::new()?;
    h.db.execute("CREATE TABLE tbl(col)", ())?;
    let txn = h.db.transaction(TransactionType::Deferred)?;
    txn.execute("INSERT INTO tbl VALUES (1)", ())?;
    txn.rollback()?;
    assert_eq!(count(&h)?, 0);
    Ok(())
}

#[test]
fn drop() -> Result<()> {
    let h = TestHelpers::new()?;
    h.db.execute("CREATE TABLE tbl(col)", ())?;
    {
        let txn = h.db.transaction(TransactionType::Deferred)?;
        txn.execute("INSERT INTO tbl VALUES (1)", ())?;
    }
    assert_eq!(count(&h)?, 0);
    Ok(())
}

#[test]
fn savepoint_commit() -> Result<()> {
    let h = TestHelpers::new()?;
    h.db.execute("CREATE TABLE tbl(col)", ())?;
    let mut txn = h.db.transaction(TransactionType::Deferred)?;
    txn.execute("INSERT INTO tbl VALUES (1)", ())?;
    let sp = txn.savepoint()?;
    sp.execute("INSERT INTO tbl VALUES (2)", ())?;
    sp.commit()?;
    txn.commit()?;
    assert_eq!(count(&h)?, 2);
    Ok(())
}

#[test]
fn savepoint_rollback() -> Result<()> {
    let h = TestHelpers::new()?;
    h.db.execute("CREATE TABLE tbl(col)", ())?;
    let mut txn = h.db.transaction(TransactionType::Deferred)?;
    txn.execute("INSERT INTO tbl VALUES (1)", ())?;
    let sp = txn.savepoint()?;
    sp.execute("INSERT INTO tbl VALUES (2)", ())?;
    sp.rollback()?;
    txn.commit()?;
    assert_eq!(count(&h)?, 1);
    Ok(())
}

#[test]
fn savepoint_drop() -> Result<()> {
    let h = TestHelpers::new()?;
    h.db.execute("CREATE TABLE tbl(col)", ())?;
    let mut txn = h.db.transaction(TransactionType::Deferred)?;
    txn.execute("INSERT INTO tbl VALUES (1)", ())?;
    {
        let sp = txn.savepoint()?;
        sp.execute("INSERT INTO tbl VALUES (2)", ())?;
    }
    txn.commit()?;
    assert_eq!(count(&h)?, 1);
    Ok(())
}

#[test]
fn commit_fail() -> Result<()> {
    let h = TestHelpers::new()?;
    h.db.execute("CREATE TABLE tbl(col)", ())?;
    let txn = h.db.transaction(TransactionType::Deferred)?;
    txn.execute("ROLLBACK", ())?;
    match txn.commit() {
        Ok(_) => unreachable!(),
        Err(e) => assert_eq!(e.to_string(), "cannot commit - no transaction is active"),
    }
    Ok(())
}

#[test]
fn immediate_and_exclusive_transactions_commit() -> Result<()> {
    let h = TestHelpers::new()?;
    h.db.execute("CREATE TABLE tbl(col)", ())?;
    let txn = h.db.transaction(TransactionType::Immediate)?;
    txn.execute("INSERT INTO tbl VALUES (1)", ())?;
    txn.commit()?;
    let txn = h.db.transaction(TransactionType::Exclusive)?;
    txn.execute("INSERT INTO tbl VALUES (2)", ())?;
    txn.commit()?;
    assert_eq!(count(&h)?, 2);
    Ok(())
}

#[test]
fn transaction_sql_texts() {
    assert_eq!(begin_sql(TransactionType::Deferred), "BEGIN");
    assert_eq!(begin_sql(TransactionType::Immediate), "BEGIN IMMEDIATE");
    assert_eq!(begin_sql(TransactionType::Exclusive), "BEGIN EXCLUSIVE");
    assert_eq!(commit_sql(TransactionState::ActiveTransaction), "COMMIT");
    assert_eq!(rollback_sql(TransactionState::ActiveTransaction), "ROLLBACK");
    assert_eq!(commit_sql(TransactionState::ActiveSavepoint), "RELEASE SAVEPOINT a");
    assert_eq!(rollback_sql(TransactionState::ActiveSavepoint), "ROLLBACK TO a");
}
