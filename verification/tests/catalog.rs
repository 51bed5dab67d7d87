use quack_rs::catalog::{autoloading_collation_name_list, check_lookup, CatalogEntryType};
use quack_rs::catalog::CatalogEntryType as T;
use libduckdb_sys as sys;

const ALL: [CatalogEntryType; 10] = [
    CatalogEntryType::Invalid,
    CatalogEntryType::Table,
    CatalogEntryType::View,
    CatalogEntryType::Index,
    CatalogEntryType::Schema,
    CatalogEntryType::PreparedStatement,
    CatalogEntryType::Sequence,
    CatalogEntryType::Collation,
    CatalogEntryType::Type,
    CatalogEntryType::Database,
];

#[test]
fn catalog_entry_type_round_trip_all_variants() {
    for variant in ALL {
        let raw = variant.to_raw();
        let back = CatalogEntryType::from_raw(raw);
        assert_eq!(variant, back, "round-trip failed for {variant:?}");
    }
}

#[test]
fn only_schema_level_entry_types_are_lookup_supported() {
    for t in [
        T::Table,
        T::View,
        T::Index,
        T::Sequence,
        T::Collation,
        T::Type,
    ] {
        assert!(t.is_lookup_supported(), "{t:?}");
    }
    for t in [T::Schema, T::Database, T::PreparedStatement, T::Invalid] {
        assert!(!t.is_lookup_supported(), "{t:?}");
    }
}

#[test]
fn autoloading_names_match_duckdb_case_insensitively() {
    assert!(CatalogEntryType::Type.may_autoload_extension("inet"));
    assert!(CatalogEntryType::Type.may_autoload_extension("JSON"));
    assert!(CatalogEntryType::Collation.may_autoload_extension("de"));
    assert!(CatalogEntryType::Collation.may_autoload_extension("EN_US"));
    assert!(CatalogEntryType::Collation.may_autoload_extension("zu"));
    assert!(!CatalogEntryType::Type.may_autoload_extension("my_type"));
    assert!(!CatalogEntryType::Type.may_autoload_extension("de"));
    assert!(!CatalogEntryType::Table.may_autoload_extension("inet"));
    assert!(!CatalogEntryType::Collation.may_autoload_extension("nocase"));
    assert_eq!(autoloading_collation_name_list().len(), 130);
}

#[test]
fn lookup_of_an_unsupported_type_is_refused_without_calling_duckdb() {
    for t in [
        CatalogEntryType::Schema,
        CatalogEntryType::Database,
        CatalogEntryType::PreparedStatement,
        CatalogEntryType::Invalid,
    ] {
        for autoload in [false, true] {
            let err = check_lookup(t, "main", autoload)
                .err()
                .unwrap_or_else(|| panic!("{t:?} must be refused"));
            assert!(err.as_str().contains("not supported"), "{t:?}: {err:?}");
        }
    }
}

#[test]
fn catalog_entry_type_unknown_raw_maps_to_invalid() {
    let result = CatalogEntryType::from_raw(9999);
    assert_eq!(result, CatalogEntryType::Invalid);
}

#[test]
fn catalog_entry_type_debug_impl() {
    let s = format!("{:?}", CatalogEntryType::View);
    assert_eq!(s, "View");
}

#[test]
fn catalog_entry_type_distinct_raw_values() {
    let raws: Vec<u32> = ALL.iter().map(|v| v.to_raw()).collect();
    // Invalid is 0; every non-Invalid variant must differ from each other.
    for (i, a) in raws.iter().enumerate().skip(1) {
        for b in raws.iter().skip(i + 1) {
            assert_ne!(a, b, "two non-Invalid variants share raw value {a}");
        }
    }
}

#[test]
fn raw_values_match_the_c_api_constants() {
    assert_eq!(
        CatalogEntryType::Table.to_raw(),
        sys::duckdb_catalog_entry_type_DUCKDB_CATALOG_ENTRY_TYPE_TABLE
    );
    assert_eq!(
        CatalogEntryType::Schema.to_raw(),
        sys::duckdb_catalog_entry_type_DUCKDB_CATALOG_ENTRY_TYPE_SCHEMA
    );
    assert_eq!(
        CatalogEntryType::Database.to_raw(),
        sys::duckdb_catalog_entry_type_DUCKDB_CATALOG_ENTRY_TYPE_DATABASE
    );
}

#[test]
fn an_autoloadable_name_is_refused_only_while_autoloading_is_on() {
    let err = check_lookup(CatalogEntryType::Type, "JSON", true).unwrap_err();
    assert!(err.as_str().contains("refused"), "{err:?}");
    assert!(err.as_str().contains("'JSON'"), "{err:?}");
    assert!(check_lookup(CatalogEntryType::Type, "JSON", false).is_ok());
    assert!(check_lookup(CatalogEntryType::Type, "my_type", true).is_ok());
    assert!(check_lookup(CatalogEntryType::Table, "inet", true).is_ok());
}

#[test]
fn a_lower_cased_name_is_looked_up_on_its_entry_types_list() {
    assert!(CatalogEntryType::Type.is_autoloading_name("json"));
    assert!(CatalogEntryType::Collation.is_autoloading_name("en_us"));
    // The list holds lower-case names only; the caller lower-cases first.
    assert!(!CatalogEntryType::Type.is_autoloading_name("JSON"));
    assert!(!CatalogEntryType::Table.is_autoloading_name("json"));
    for (t, name) in [
        (CatalogEntryType::Type, "Inet"),
        (CatalogEntryType::Collation, "De"),
        (CatalogEntryType::Type, "my_type"),
    ] {
        assert_eq!(
            t.may_autoload_extension(name),
            t.is_autoloading_name(&name.to_lowercase())
        );
    }
}
