use sqlite3_ext::vtab::{ConstraintOp, DistinctMode, IndexInfo};
use sqlite3_ext::{Error, RawValue};

fn plan(version: i32) -> IndexInfo {
    IndexInfo::new(
        version,
        vec![(0, 2, true), (1, 16, false), (-1, 151, true)],
        vec![(1, true), (0, false)],
        2,
        0,
        25,
        0,
        0b101,
    )
}

#[test]
fn constraints_are_decoded() {
    let info = plan(3_045_000);
    let cs = info.constraints();
    assert_eq!(cs.len(), 3);
    assert_eq!(cs[0].column(), 0);
    assert_eq!(cs[0].op(), ConstraintOp::Eq);
    assert!(cs[0].usable());
    assert_eq!(cs[1].op(), ConstraintOp::LT);
    assert!(!cs[1].usable());
    assert_eq!(cs[2].column(), -1);
    assert_eq!(cs[2].op(), ConstraintOp::Function(151));
    let os = info.order_by();
    assert_eq!(os.len(), 2);
    assert_eq!(os[0].column(), 1);
    assert!(os[0].desc());
    assert!(!os[1].desc());
}

#[test]
fn every_operator_code_decodes() {
    let codes = [2u8, 4, 8, 16, 32, 64, 65, 66, 67, 68, 69, 70, 71, 72, 73, 74, 150, 255];
    let ops = [
        ConstraintOp::Eq,
        ConstraintOp::GT,
        ConstraintOp::LE,
        ConstraintOp::LT,
        ConstraintOp::GE,
        ConstraintOp::Match,
        ConstraintOp::Like,
        ConstraintOp::Glob,
        ConstraintOp::Regexp,
        ConstraintOp::NE,
        ConstraintOp::IsNot,
        ConstraintOp::IsNotNull,
        ConstraintOp::IsNull,
        ConstraintOp::Is,
        ConstraintOp::Limit,
        ConstraintOp::Offset,
        ConstraintOp::Function(150),
        ConstraintOp::Function(255),
    ];
    for (c, o) in codes.iter().zip(ops.iter()) {
        assert_eq!(ConstraintOp::from_sqlite(*c), *o);
    }
    assert!(ConstraintOp::Function(150).valid_function_constraint());
    assert!(!ConstraintOp::Eq.valid_function_constraint());
}

#[test]
fn argv_index_roundtrip() {
    let mut info = plan(3_045_000);
    let cs = info.constraints();
    assert_eq!(cs[0].argv_index(&info), None);
    cs[0].set_argv_index(&mut info, Some(0));
    cs[2].set_argv_index(&mut info, Some(1));
    assert_eq!(cs[0].argv_index(&info), Some(0));
    assert_eq!(cs[1].argv_index(&info), None);
    assert_eq!(cs[2].argv_index(&info), Some(1));
    cs[0].set_argv_index(&mut info, None);
    assert_eq!(cs[0].argv_index(&info), None);
    cs[1].set_argv_index(&mut info, Some(1000));
    assert_eq!(cs[1].argv_index(&info), Some(1000));
}

#[test]
fn omit_roundtrip_keeps_argv() {
    let mut info = plan(3_045_000);
    let cs = info.constraints();
    cs[1].set_argv_index(&mut info, Some(3));
    assert!(!cs[1].omit(&info));
    cs[1].set_omit(&mut info, true);
    assert!(cs[1].omit(&info));
    assert_eq!(cs[1].argv_index(&info), Some(3));
    assert!(!cs[0].omit(&info));
}

#[test]
fn outputs_roundtrip() {
    let mut info = plan(3_045_000);
    assert_eq!(info.index_num(), 0);
    info.set_index_num(42);
    assert_eq!(info.index_num(), 42);
    assert_eq!(info.index_str(), None);
    info.set_index_str(Some("plan b")).unwrap();
    assert_eq!(info.index_str(), Some("plan b"));
    info.set_index_str(None).unwrap();
    assert_eq!(info.index_str(), None);
    assert!(!info.order_by_consumed());
    info.set_order_by_consumed(true);
    assert!(info.order_by_consumed());
    info.set_estimated_cost(1.5f64.to_bits());
    assert_eq!(f64::from_bits(info.estimated_cost()), 1.5);
    assert_eq!(info.estimated_rows(), Ok(25));
    info.set_estimated_rows(7);
    assert_eq!(info.estimated_rows(), Ok(7));
    info.set_scan_flags(1);
    assert_eq!(info.scan_flags(), Ok(1));
    assert_eq!(info.columns_used(), Ok(0b101));
    assert_eq!(info.distinct_mode(), DistinctMode::Distinct);
}

#[test]
fn old_versions_refuse_or_ignore() {
    let mut info = plan(3_008_001);
    assert_eq!(info.estimated_rows(), Err(Error::VersionNotSatisfied(3_008_002)));
    info.set_estimated_rows(7);
    assert_eq!(info.estimated_rows(), Err(Error::VersionNotSatisfied(3_008_002)));
    assert_eq!(info.scan_flags(), Err(Error::VersionNotSatisfied(3_009_000)));
    info.set_scan_flags(1);
    assert_eq!(info.scan_flags(), Err(Error::VersionNotSatisfied(3_009_000)));
    assert_eq!(info.columns_used(), Err(Error::VersionNotSatisfied(3_010_000)));
    assert_eq!(info.distinct_mode(), DistinctMode::Ordered);

    let info = plan(3_009_000);
    assert_eq!(info.scan_flags(), Ok(0));
    assert_eq!(info.columns_used(), Err(Error::VersionNotSatisfied(3_010_000)));
}

#[test]
fn distinct_modes_decode() {
    assert_eq!(DistinctMode::from_sqlite(0), DistinctMode::Ordered);
    assert_eq!(DistinctMode::from_sqlite(1), DistinctMode::Grouped);
    assert_eq!(DistinctMode::from_sqlite(2), DistinctMode::Distinct);
}

#[test]
fn constraint_details() {
    let mut info = plan(3_045_000);
    info.set_constraint_details(vec![
        (Some(RawValue::Integer(20)), "BINARY".to_owned(), true),
        (None, "NOCASE".to_owned(), false),
        (None, "BINARY".to_owned(), false),
    ]);
    let cs = info.constraints();
    assert_eq!(cs[0].rhs(&info).unwrap().get_i64(), 20);
    assert_eq!(cs[1].rhs(&info).err(), Some(sqlite3_ext::SQLITE_NOTFOUND()));
    assert_eq!(cs[1].collation(&info), Ok("NOCASE"));
    assert!(cs[0].value_list_available(&info));
    assert!(!cs[1].value_list_available(&info));
    assert_eq!(cs[0].value_list_wanted(&info), None);
    assert!(cs[0].set_value_list_wanted(&mut info, true));
    assert_eq!(cs[0].value_list_wanted(&info), Some(true));
    assert!(!cs[1].set_value_list_wanted(&mut info, true));
    assert_eq!(cs[1].position(), 1);
}

#[test]
fn details_need_new_sqlite() {
    let mut info = plan(3_021_000);
    info.set_constraint_details(vec![
        (Some(RawValue::Integer(1)), "BINARY".to_owned(), true),
        (None, "BINARY".to_owned(), false),
        (None, "BINARY".to_owned(), false),
    ]);
    let cs = info.constraints();
    assert_eq!(cs[0].rhs(&info).err(), Some(sqlite3_ext::SQLITE_NOTFOUND()));
    assert_eq!(cs[0].collation(&info), Err(Error::VersionNotSatisfied(3_022_000)));
    assert!(!cs[0].value_list_available(&info));
    assert!(!cs[0].set_value_list_wanted(&mut info, true));
    assert_eq!(cs[0].value_list_wanted(&info), None);
}
