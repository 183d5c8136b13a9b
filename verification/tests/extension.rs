use sqlite3_ext::extension::{
    like_escape, load_extension_outcome, load_extension_plan, must_disable_after_load, require_version,
};
use sqlite3_ext::Error;

#[test]
fn load_extension_needs_3_8_7() {
    assert_eq!(load_extension_plan(3_008_006), Err(Error::VersionNotSatisfied(3_008_007)));
    assert_eq!(load_extension_plan(3_008_007), Ok(false));
    assert_eq!(load_extension_plan(3_013_000), Ok(true));
}

#[test]
fn loading_is_switched_off_only_where_it_was_switched_on() {
    assert!(must_disable_after_load(3_013_000, false));
    assert!(!must_disable_after_load(3_013_000, true));
    assert!(!must_disable_after_load(3_012_000, false));
}

#[test]
fn load_outcome_keeps_the_message() {
    assert_eq!(load_extension_outcome(0, None), Ok(()));
    assert_eq!(
        load_extension_outcome(1, Some("no such file".to_owned())),
        Err(Error::Sqlite(1, Some("no such file".to_owned())))
    );
}

#[test]
fn versions_and_escapes() {
    assert_eq!(require_version(3_010_000, 3_010_000), Ok(()));
    assert_eq!(require_version(3_009_000, 3_010_000), Err(Error::VersionNotSatisfied(3_010_000)));
    assert_eq!(like_escape('\\'), 92);
    assert_eq!(like_escape('é'), 0);
}

#[test]
fn defensive_flag_can_be_set() {
    let h = sqlite3_ext::TestHelpers::new().unwrap();
    assert_eq!(h.db.db_config_defensive(true), Ok(()));
    assert_eq!(h.db.db_config_defensive(false), Ok(()));
    assert_eq!(h.db.db_config_defensive_for_version(3_025_000, true), Ok(()));
}
