use quack_rs::error_data::DuckDbErrorType;
use quack_rs::query::{check_temporal, no_error_message, to_c_sql, FetchState, FetchStep};
use quack_rs::replacement_scan::str_to_cstring;
use quack_rs::copy_function::format_probe_sql;
use quack_rs::copy_function::format_probe_verdict;
use quack_rs::copy_function::check_copy_parts;
use quack_rs::config_option::{
    check_config_parts, setting_taken_verdict, typed_default_sql, typed_default_verdict,
    DefaultConversion, SettingProbe,
};

#[test]
fn rejects_sql_containing_an_interior_nul() {
    let err = to_c_sql("SELECT 1\0; DROP TABLE t").expect_err("must reject NUL");
    assert!(err.as_str().contains("NUL"), "{err:?}");
}

#[test]
fn accepts_ordinary_sql() {
    assert_eq!(to_c_sql("SELECT 1").expect("valid SQL"), "SELECT 1");
}

#[test]
fn str_to_cstring_truncates_at_null() {
    let c = str_to_cstring("bad\0message");
    assert_eq!(c, "bad");
}

#[test]
fn a_string_without_nul_is_kept_whole() {
    assert_eq!(str_to_cstring("read_csv"), "read_csv");
    assert_eq!(str_to_cstring(""), "");
    assert_eq!(str_to_cstring("\0tail"), "");
}

#[test]
fn a_failure_without_a_message_names_the_call() {
    assert_eq!(
        no_error_message("duckdb_query"),
        "duckdb_query reported failure without an error message: DuckDB caught an exception \
         that is not a std::exception (its `catch (...)` path), which records nothing"
    );
}

#[test]
fn an_open_result_fetches_and_a_finished_one_repeats_its_outcome() {
    assert_eq!(FetchState::Open.next_step(), FetchStep::Fetch);
    let ended = FetchState::after_empty_fetch(None);
    assert_eq!(ended, FetchState::Ended);
    assert_eq!(ended.next_step(), FetchStep::End);
    assert_eq!(ended.next_step(), FetchStep::End);
    let failed = FetchState::after_empty_fetch(Some("Interrupted".to_owned()));
    let message =
        "the result ended early: fetching the next chunk failed: Interrupted".to_owned();
    assert_eq!(failed, FetchState::Failed(message.clone()));
    assert_eq!(failed.next_step(), FetchStep::Fail(message.clone()));
    assert_eq!(failed.next_step(), FetchStep::Fail(message));
}

#[test]
fn an_out_of_range_temporal_parameter_is_refused_with_its_value() {
    assert!(check_temporal("TIMESTAMP", true, 5, "bind_timestamp", 1, "..").is_ok());
    let err = check_temporal(
        "TIMESTAMP",
        false,
        i64::MIN,
        "bind_timestamp",
        2,
        "294247-01-10 BC to 294247-01-10",
    )
    .unwrap_err();
    assert_eq!(
        err.as_str(),
        "bind_timestamp (parameter 2): -9223372036854775808 is outside DuckDB's range for \
         TIMESTAMP (294247-01-10 BC to 294247-01-10); DuckDB would bind it unchecked and then \
         crash, abort or fail every read of it"
    );
    let err = check_temporal("DATE", false, 0, "bind_date", 10, "r").unwrap_err();
    assert!(err.as_str().starts_with("bind_date (parameter 10): 0 is outside"));
}

#[test]
fn copy_format_names_are_escaped_in_the_probe() {
    assert_eq!(
        format_probe_sql("it's"),
        "COPY (SELECT \"quack_rs_format_probe_no_such_column\") TO '' (FORMAT 'it''s')"
    );
}

#[test]
fn the_probe_outcome_decides_whether_a_format_name_is_taken() {
    let taken = format_probe_verdict("csv", Some(DuckDbErrorType::Binder)).unwrap_err();
    assert!(taken.as_str().starts_with("copy function 'csv' already exists"));
    for free in [
        DuckDbErrorType::Catalog,
        DuckDbErrorType::Autoload,
        DuckDbErrorType::MissingExtension,
    ] {
        assert!(format_probe_verdict("mine", Some(free)).is_ok(), "{free:?}");
    }
    let unknown = format_probe_verdict("mine", None).unwrap_err();
    assert!(unknown.as_str().contains("(the probe returned None,"), "{unknown:?}");
    let other = format_probe_verdict("mine", Some(DuckDbErrorType::Io)).unwrap_err();
    assert!(other.as_str().contains("(the probe returned Some(Io),"), "{other:?}");
}

#[test]
fn a_copy_function_implements_one_direction_in_full() {
    assert!(check_copy_parts(true, true, true, false).is_ok());
    assert!(check_copy_parts(true, true, true, true).is_ok());
    assert!(check_copy_parts(false, false, false, true).is_ok());
    let partial = check_copy_parts(true, false, true, true).unwrap_err();
    assert!(partial.as_str().contains("only partially"));
    let nothing = check_copy_parts(false, false, false, false).unwrap_err();
    assert!(nothing.as_str().contains("implements nothing"));
    let partial_no_reader = check_copy_parts(true, true, false, false).unwrap_err();
    assert!(partial_no_reader.as_str().contains("implements nothing"));
}

#[test]
fn a_config_option_needs_a_concrete_type_and_a_default() {
    assert!(check_config_parts("my_opt", true, None, true).is_ok());
    assert_eq!(
        check_config_parts("my_opt", false, None, true).unwrap_err().as_str(),
        "config option type not set"
    );
    let pseudo = check_config_parts("my_opt", true, Some("ANY"), true).unwrap_err();
    assert!(pseudo
        .as_str()
        .starts_with("config option 'my_opt': ANY cannot be the type of a config option"));
    let no_default = check_config_parts("my_opt", true, None, false).unwrap_err();
    assert!(no_default.as_str().contains("current_setting('my_opt') fails"));
    let free = SettingProbe::Chunk { rows: 1, columns: 1, taken: 0 };
    assert!(setting_taken_verdict("my_opt", &free).is_ok());
    let used = SettingProbe::Chunk { rows: 1, columns: 1, taken: 1 };
    let taken = setting_taken_verdict("threads", &used).unwrap_err();
    assert!(taken.as_str().starts_with("config option 'threads' already exists"));
}

#[test]
fn a_setting_name_check_that_cannot_be_made_is_an_error() {
    let failed = setting_taken_verdict("my_opt", &SettingProbe::Failed("boom".to_owned()));
    assert_eq!(
        failed.unwrap_err().as_str(),
        "config option 'my_opt': cannot check whether the name is taken: boom"
    );
    let empty = setting_taken_verdict("my_opt", &SettingProbe::NoRows);
    assert_eq!(
        empty.unwrap_err().as_str(),
        "config option 'my_opt': cannot check whether the name is taken: the check returned no rows"
    );
    let wide = SettingProbe::Chunk { rows: 1, columns: 2, taken: 0 };
    assert_eq!(
        setting_taken_verdict("my_opt", &wide).unwrap_err().as_str(),
        "config option 'my_opt': cannot check whether the name is taken: the check returned an unexpected shape"
    );
    let many = SettingProbe::Chunk { rows: 2, columns: 1, taken: 0 };
    assert!(setting_taken_verdict("my_opt", &many).is_err());
    let negative = SettingProbe::Chunk { rows: 1, columns: 1, taken: -1 };
    assert!(setting_taken_verdict("my_opt", &negative).is_err());
}

#[test]
fn the_default_is_converted_with_the_cast_set_uses() {
    assert_eq!(typed_default_sql("BIGINT"), "SELECT TRY_CAST($1::VARCHAR AS BIGINT)");
    assert_eq!(typed_default_sql("DECIMAL(18,3)"), "SELECT TRY_CAST($1::VARCHAR AS DECIMAL(18,3))");
}

#[test]
fn each_outcome_of_the_default_conversion_is_decided() {
    let verdict = |c: DefaultConversion| typed_default_verdict("my_opt", "12x", "INTEGER", &c);
    assert!(verdict(DefaultConversion::Converted).is_ok());
    assert!(verdict(DefaultConversion::Shape(1, 1)).is_ok());
    assert_eq!(
        verdict(DefaultConversion::Shape(2, 1)).unwrap_err().as_str(),
        "config option 'my_opt': cannot convert default value \"12x\" to INTEGER: the conversion returned an unexpected shape"
    );
    assert!(verdict(DefaultConversion::Shape(1, 0)).is_err());
    assert_eq!(
        verdict(DefaultConversion::NoRows).unwrap_err().as_str(),
        "config option 'my_opt': cannot convert default value \"12x\" to INTEGER: the conversion returned no rows"
    );
    assert_eq!(
        verdict(DefaultConversion::Failed("Parser Error".to_owned())).unwrap_err().as_str(),
        "config option 'my_opt': cannot convert default value \"12x\" to INTEGER: Parser Error"
    );
    assert_eq!(
        verdict(DefaultConversion::Null).unwrap_err().as_str(),
        "config option 'my_opt': default value \"12x\" cannot be cast to INTEGER"
    );
    assert_eq!(
        verdict(DefaultConversion::Unsupported).unwrap_err().as_str(),
        "config option 'my_opt': a default value of type INTEGER is not supported; the C API cannot build one without a cast that may abort the process. Use a VARCHAR option and parse it yourself."
    );
    let quoted = typed_default_verdict("o", "a\"b\n\u{85}", "DATE", &DefaultConversion::Null);
    assert_eq!(
        quoted.unwrap_err().as_str(),
        format!("config option 'o': default value {:?} cannot be cast to DATE", "a\"b\n\u{85}")
    );
}
