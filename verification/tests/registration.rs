use quack_rs::cast::{check_cast_connection, check_cast_parts};
use quack_rs::config_option::check_config_parts;
use quack_rs::copy_function::check_copy_parts;

#[test]
fn register_without_a_function_is_an_error_before_touching_duckdb() {
    // A builder with its source and target types but no callback.
    let err = check_cast_parts(false, true, true)
        .expect_err("a builder without a function must be refused");
    assert!(err.as_str().contains("callback not set"), "{err:?}");
}

#[test]
fn register_without_callbacks_is_refused_before_duckdb_is_called() {
    let err = check_copy_parts(false, false, false, false)
        .expect_err("a copy function with no callbacks must be refused");
    assert!(err.as_str().contains("implements nothing"), "{err:?}");
}

#[test]
fn pseudo_types_and_missing_defaults_are_refused_before_duckdb_is_called() {
    for ty in ["ANY", "\"NULL\"", "INTEGER_LITERAL", "STRING_LITERAL"] {
        let err = check_config_parts("opt", true, Some(ty), true)
            .expect_err("a pseudo-type must be refused");
        assert!(
            err.as_str()
                .contains("cannot be the type of a config option"),
            "{ty:?}: {err:?}"
        );
    }
    let err = check_config_parts("opt", true, None, false)
        .expect_err("an option without a default must be refused");
    assert!(err.as_str().contains("no default value"), "{err:?}");
}

#[test]
fn a_cast_is_not_registered_on_a_null_connection() {
    assert!(check_cast_connection(true).is_ok());
    assert_eq!(
        check_cast_connection(false).unwrap_err().as_str(),
        "cast function registration: connection is null"
    );
}
