use quack_rs::cast::{check_cast_parts, CastMode};
use quack_rs::config_option::ConfigOptionScope;
use quack_rs::debug_repr::Callback;
use quack_rs::file_system::FileFlag;
use quack_rs::query::ResultKind;
use libduckdb_sys::duckdb_cast_mode_DUCKDB_CAST_NORMAL;
use libduckdb_sys::duckdb_cast_mode_DUCKDB_CAST_TRY;
use libduckdb_sys as sys;

#[test]
fn cast_mode_from_raw_normal() {
    assert_eq!(
        CastMode::from_raw(duckdb_cast_mode_DUCKDB_CAST_NORMAL),
        CastMode::Normal
    );
}

#[test]
fn cast_mode_from_raw_try() {
    assert_eq!(
        CastMode::from_raw(duckdb_cast_mode_DUCKDB_CAST_TRY),
        CastMode::Try
    );
}

#[test]
fn an_unknown_cast_mode_is_normal() {
    assert_eq!(CastMode::from_raw(7), CastMode::Normal);
}

#[test]
fn cast_parts_are_checked_in_order() {
    assert!(check_cast_parts(true, true, true).is_ok());
    assert_eq!(
        check_cast_parts(false, false, false).unwrap_err().as_str(),
        "cast function callback not set"
    );
    assert_eq!(
        check_cast_parts(true, false, false).unwrap_err().as_str(),
        "cast source type not set"
    );
    assert_eq!(
        check_cast_parts(true, true, false).unwrap_err().as_str(),
        "cast target type not set"
    );
}

#[test]
fn scope_enum_to_raw_distinct_values() {
    let local = ConfigOptionScope::Local.to_raw();
    let session = ConfigOptionScope::Session.to_raw();
    let global = ConfigOptionScope::Global.to_raw();
    assert_ne!(local, session);
    assert_ne!(session, global);
    assert_ne!(local, global);
}

#[test]
fn scope_enum_debug_impl() {
    assert_eq!(format!("{:?}", ConfigOptionScope::Local), "Local");
    assert_eq!(format!("{:?}", ConfigOptionScope::Session), "Session");
    assert_eq!(format!("{:?}", ConfigOptionScope::Global), "Global");
}

#[test]
fn scope_enum_clone_eq() {
    let a = ConfigOptionScope::Session;
    #[allow(clippy::clone_on_copy)]
    let b = a.clone();
    assert_eq!(a, b);
}

#[test]
fn scope_raw_values_match_the_c_api_constants() {
    assert_eq!(
        ConfigOptionScope::Local.to_raw(),
        sys::duckdb_config_option_scope_DUCKDB_CONFIG_OPTION_SCOPE_LOCAL
    );
    assert_eq!(
        ConfigOptionScope::Session.to_raw(),
        sys::duckdb_config_option_scope_DUCKDB_CONFIG_OPTION_SCOPE_SESSION
    );
    assert_eq!(
        ConfigOptionScope::Global.to_raw(),
        sys::duckdb_config_option_scope_DUCKDB_CONFIG_OPTION_SCOPE_GLOBAL
    );
}

#[test]
fn file_flag_distinct_raw_values() {
    let flags = [
        FileFlag::Read,
        FileFlag::Write,
        FileFlag::Create,
        FileFlag::CreateNew,
        FileFlag::Append,
    ];
    for (i, a) in flags.iter().enumerate() {
        for b in flags.iter().skip(i + 1) {
            assert_ne!(a.to_raw(), b.to_raw(), "{a:?} and {b:?} share a raw value");
        }
    }
}

#[test]
fn file_flag_raw_values_match_the_c_api_constants() {
    assert_eq!(FileFlag::Read.to_raw(), sys::duckdb_file_flag_DUCKDB_FILE_FLAG_READ);
    assert_eq!(FileFlag::Write.to_raw(), sys::duckdb_file_flag_DUCKDB_FILE_FLAG_WRITE);
    assert_eq!(FileFlag::Create.to_raw(), sys::duckdb_file_flag_DUCKDB_FILE_FLAG_CREATE);
    assert_eq!(
        FileFlag::CreateNew.to_raw(),
        sys::duckdb_file_flag_DUCKDB_FILE_FLAG_CREATE_NEW
    );
    assert_eq!(FileFlag::Append.to_raw(), sys::duckdb_file_flag_DUCKDB_FILE_FLAG_APPEND);
}

#[test]
fn result_kinds_follow_the_c_api_constants() {
    assert_eq!(
        ResultKind::from_raw(sys::duckdb_result_type_DUCKDB_RESULT_TYPE_QUERY_RESULT),
        ResultKind::Rows
    );
    assert_eq!(
        ResultKind::from_raw(sys::duckdb_result_type_DUCKDB_RESULT_TYPE_CHANGED_ROWS),
        ResultKind::ChangedRows
    );
    assert_eq!(
        ResultKind::from_raw(sys::duckdb_result_type_DUCKDB_RESULT_TYPE_NOTHING),
        ResultKind::Nothing
    );
    assert_eq!(
        ResultKind::from_raw(sys::duckdb_result_type_DUCKDB_RESULT_TYPE_INVALID),
        ResultKind::Invalid
    );
    assert_eq!(ResultKind::from_raw(77), ResultKind::Invalid);
}

#[test]
fn a_callback_prints_whether_it_is_set() {
    let set: Option<fn()> = Some(|| {});
    let unset: Option<fn()> = None;
    assert!(Callback::of(&set).0);
    assert!(!Callback::of(&unset).0);
    assert_eq!(Callback::of(&set).label(), "set");
    assert_eq!(Callback::of(&unset).label(), "unset");
}
