use quack_rs::error_data::{
    error_data_into_extension_error, error_data_text, DuckDbErrorType, MAX_ERROR_CODE,
};
use libduckdb_sys as sys;

const ALL_VARIANTS: [DuckDbErrorType; 43] = [
    DuckDbErrorType::Invalid,
    DuckDbErrorType::OutOfRange,
    DuckDbErrorType::Conversion,
    DuckDbErrorType::UnknownType,
    DuckDbErrorType::Decimal,
    DuckDbErrorType::MismatchType,
    DuckDbErrorType::DivideByZero,
    DuckDbErrorType::ObjectSize,
    DuckDbErrorType::InvalidType,
    DuckDbErrorType::Serialization,
    DuckDbErrorType::Transaction,
    DuckDbErrorType::NotImplemented,
    DuckDbErrorType::Expression,
    DuckDbErrorType::Catalog,
    DuckDbErrorType::Parser,
    DuckDbErrorType::Planner,
    DuckDbErrorType::Scheduler,
    DuckDbErrorType::Executor,
    DuckDbErrorType::Constraint,
    DuckDbErrorType::Index,
    DuckDbErrorType::Stat,
    DuckDbErrorType::Connection,
    DuckDbErrorType::Syntax,
    DuckDbErrorType::Settings,
    DuckDbErrorType::Binder,
    DuckDbErrorType::Network,
    DuckDbErrorType::Optimizer,
    DuckDbErrorType::NullPointer,
    DuckDbErrorType::Io,
    DuckDbErrorType::Interrupt,
    DuckDbErrorType::Fatal,
    DuckDbErrorType::Internal,
    DuckDbErrorType::InvalidInput,
    DuckDbErrorType::OutOfMemory,
    DuckDbErrorType::Permission,
    DuckDbErrorType::ParameterNotResolved,
    DuckDbErrorType::ParameterNotAllowed,
    DuckDbErrorType::Dependency,
    DuckDbErrorType::Http,
    DuckDbErrorType::MissingExtension,
    DuckDbErrorType::Autoload,
    DuckDbErrorType::Sequence,
    DuckDbErrorType::InvalidConfiguration,
];

#[test]
fn error_type_round_trip_all_variants() {
    for variant in ALL_VARIANTS {
        let raw = variant.to_raw();
        assert_eq!(
            DuckDbErrorType::from_raw(raw),
            variant,
            "round-trip failed for {variant:?}"
        );
    }
}

#[test]
fn error_type_unknown_raw_maps_to_invalid() {
    assert_eq!(DuckDbErrorType::from_raw(9999), DuckDbErrorType::Invalid);
}

#[test]
fn error_type_distinct_raw_values() {
    for (i, a) in ALL_VARIANTS.iter().enumerate() {
        for b in ALL_VARIANTS.iter().skip(i + 1) {
            assert_ne!(
                a.to_raw(),
                b.to_raw(),
                "variants {a:?} and {b:?} share a raw value"
            );
        }
    }
}

#[test]
fn error_type_display_matches_as_str() {
    for variant in ALL_VARIANTS {
        assert!(!variant.as_str().is_empty(), "{variant:?} has empty label");
        assert_eq!(variant.to_string(), variant.as_str());
    }
}

#[test]
fn error_type_labels_are_distinct() {
    for (i, a) in ALL_VARIANTS.iter().enumerate() {
        for b in ALL_VARIANTS.iter().skip(i + 1) {
            assert_ne!(a.as_str(), b.as_str(), "{a:?} and {b:?} share a label");
        }
    }
}

#[test]
fn from_error_data_for_extension_error() {
    // An error record with no message becomes the generic error.
    let ext = error_data_into_extension_error(None);
    assert_eq!(ext.as_str(), "unknown DuckDB error");
}

#[test]
fn an_error_record_with_a_message_keeps_it() {
    let ext = error_data_into_extension_error(Some("boom".to_owned()));
    assert_eq!(ext.as_str(), "boom");
}

#[test]
fn an_error_record_displays_its_label_and_message() {
    assert_eq!(error_data_text(DuckDbErrorType::Invalid, None), "invalid");
    assert_eq!(
        error_data_text(DuckDbErrorType::Io, Some("no such file")),
        "I/O: no such file"
    );
}

#[test]
fn debug_names_are_what_debug_prints() {
    for variant in ALL_VARIANTS {
        assert_eq!(variant.debug_name(), format!("{variant:?}"));
    }
}

#[test]
fn codes_run_from_zero_to_the_maximum() {
    let mut codes: Vec<u32> = ALL_VARIANTS.iter().map(|v| v.to_raw()).collect();
    codes.sort_unstable();
    assert_eq!(codes, (0..=MAX_ERROR_CODE).collect::<Vec<u32>>());
}

#[test]
fn codes_match_the_c_api_constants() {
    assert_eq!(DuckDbErrorType::OutOfRange.to_raw(), sys::duckdb_error_type_DUCKDB_ERROR_OUT_OF_RANGE);
    assert_eq!(DuckDbErrorType::Binder.to_raw(), sys::duckdb_error_type_DUCKDB_ERROR_BINDER);
    assert_eq!(DuckDbErrorType::Io.to_raw(), sys::duckdb_error_type_DUCKDB_ERROR_IO);
    assert_eq!(DuckDbErrorType::MissingExtension.to_raw(), sys::duckdb_error_type_DUCKDB_ERROR_MISSING_EXTENSION);
    assert_eq!(DuckDbErrorType::Autoload.to_raw(), sys::duckdb_error_type_DUCKDB_ERROR_AUTOLOAD);
    assert_eq!(DuckDbErrorType::InvalidConfiguration.to_raw(), sys::duckdb_error_type_DUCKDB_INVALID_CONFIGURATION);
}
