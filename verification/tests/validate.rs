use quack_rs::scaffold::{libduckdb_sys_requirement, parse_u32, validate_target_duckdb_version, ScaffoldConfig};
use quack_rs::validate::{
    validate_excluded_platforms, validate_extension_name, validate_extension_version,
    validate_free_text, validate_github_repo, validate_spdx_license,
};

fn message<T>(r: Result<T, quack_rs::error::ExtensionError>) -> String {
    match r {
        Ok(_) => panic!("expected an error"),
        Err(e) => e.as_str().to_owned(),
    }
}

#[test]
fn extension_names_are_lower_case_identifiers() {
    assert!(validate_extension_name("my_ext2").is_ok());
    assert_eq!(
        message(validate_extension_name("")),
        "extension name must not be empty"
    );
    assert!(message(validate_extension_name("my-ext")).contains("contains '-'"));
    assert_eq!(
        message(validate_extension_name("2ext")),
        "extension name '2ext' must start with a lower-case ASCII letter"
    );
    assert_eq!(
        message(validate_extension_name("myExt")),
        "extension name 'myExt' may hold only lower-case ASCII letters, digits and '_'"
    );
}

#[test]
fn versions_are_runs_of_version_characters() {
    assert!(validate_extension_version("1.0.0-rc.1+build_7").is_ok());
    assert!(validate_extension_version("2025120401").is_ok());
    assert_eq!(
        message(validate_extension_version("")),
        "extension version must not be empty"
    );
    assert!(message(validate_extension_version("1.0 beta")).starts_with("extension version '1.0 beta'"));
    assert!(validate_extension_version("../x").is_err());
}

#[test]
fn licenses_and_platforms_come_from_the_known_lists() {
    assert!(validate_spdx_license("Apache-2.0").is_ok());
    assert_eq!(
        message(validate_spdx_license("Proprietary")),
        "license 'Proprietary' is not a recognised SPDX license identifier"
    );
    assert!(validate_excluded_platforms(&[]).is_ok());
    assert!(validate_excluded_platforms(&["wasm_mvp".to_owned(), "wasm_eh".to_owned()]).is_ok());
    assert_eq!(
        message(validate_excluded_platforms(&[
            "wasm_mvp".to_owned(),
            "amiga".to_owned(),
            "beos".to_owned()
        ])),
        "excluded platform 'amiga' is not a platform DuckDB's community extension CI builds for"
    );
}

#[test]
fn free_text_is_trimmed_and_free_of_control_characters() {
    assert!(validate_free_text("description", "line one\nline two", true).is_ok());
    assert!(validate_free_text("maintainer", "line one\nline two", false).is_err());
    assert_eq!(
        message(validate_free_text("maintainer", " ", false)),
        "maintainer must not be empty"
    );
    assert_eq!(
        message(validate_free_text("description", " padded", true)),
        "description must not start or end with whitespace"
    );
    assert_eq!(
        message(validate_free_text("description", "bidi \u{202e}", true)),
        "description contains a control or bidirectional-formatting character"
    );
    assert!(validate_free_text("description", "tab\tinside", true).is_ok());
}

#[test]
fn repositories_are_owner_slash_repo() {
    assert!(validate_github_repo("Org-1/repo.name_2").is_ok());
    assert_eq!(
        message(validate_github_repo("a/b/c")),
        "github_repo 'a/b/c' must be 'owner/repo', each part made of ASCII letters, digits, '-', '_' and '.'"
    );
}

#[test]
fn a_duckdb_release_pins_one_libduckdb_sys_line() {
    assert_eq!(libduckdb_sys_requirement("v1.5.5").unwrap(), "~1.10505.0");
    assert_eq!(libduckdb_sys_requirement("v1.5.0").unwrap(), "~1.10500.0");
    assert_eq!(libduckdb_sys_requirement("v1.99.99").unwrap(), "~1.19999.0");
    assert_eq!(libduckdb_sys_requirement("v1.4.4").unwrap(), "=1.4.4");
    assert_eq!(libduckdb_sys_requirement("1.4.12").unwrap(), "=1.4.12");
    // Different releases never share a pin.
    assert_ne!(
        libduckdb_sys_requirement("v1.5.5").unwrap(),
        libduckdb_sys_requirement("v1.5.6").unwrap()
    );
    assert_eq!(
        message(libduckdb_sys_requirement("v1.x.0")),
        "malformed DuckDB version \"v1.x.0\""
    );
    assert!(message(libduckdb_sys_requirement("v1.4.3")).starts_with("cannot pin libduckdb-sys to DuckDB v1.4.3: "));
    assert!(libduckdb_sys_requirement("v2.0.0").is_err());
    assert!(libduckdb_sys_requirement("v1.5").is_err());
}

#[test]
fn u32_parsing_follows_str_parse() {
    let p = |s: &str| parse_u32(&s.chars().collect::<Vec<char>>());
    assert_eq!(p("0"), Some(0));
    assert_eq!(p("+17"), Some(17));
    assert_eq!(p("4294967295"), Some(u32::MAX));
    assert_eq!(p("4294967296"), None);
    assert_eq!(p(""), None);
    assert_eq!(p("+"), None);
    assert_eq!(p("-1"), None);
    assert_eq!(p("1a"), None);
    for s in ["0", "+17", "4294967295", "4294967296", "", "+", "-1", "1a", "007"] {
        assert_eq!(p(s), s.parse::<u32>().ok(), "{s:?}");
    }
}

#[test]
fn the_target_version_must_fit_the_abi() {
    let stable = ScaffoldConfig::default();
    assert!(validate_target_duckdb_version(&stable).is_ok());
    let wrong = ScaffoldConfig {
        target_duckdb_version: "1.2.0".to_owned(),
        ..ScaffoldConfig::default()
    };
    assert_eq!(
        message(validate_target_duckdb_version(&wrong)),
        "target_duckdb_version must start with 'v' (e.g. \"v1.5.5\"), got \"1.2.0\""
    );
    let unstable = ScaffoldConfig {
        target_duckdb_version: "v1.5.5".to_owned(),
        use_unstable_c_api: true,
        ..ScaffoldConfig::default()
    };
    assert!(validate_target_duckdb_version(&unstable).is_ok());
    let unpinnable = ScaffoldConfig {
        target_duckdb_version: "v1.3.0".to_owned(),
        use_unstable_c_api: true,
        ..ScaffoldConfig::default()
    };
    assert!(message(validate_target_duckdb_version(&unpinnable)).starts_with("cannot pin"));
}

#[test]
fn quoted_values_are_escaped_as_debug_prints_them() {
    for target in ["v1.x.0", "v\"1\\.0", "v1.\u{1b}.\t\n\r\0", "v1.\u{7f}.\u{1}", "v1.é.0", "v1.\u{85}.0", "v1.\u{300}.\u{200b}"] {
        assert_eq!(
            message(libduckdb_sys_requirement(target)),
            format!("malformed DuckDB version {target:?}")
        );
        let cfg = ScaffoldConfig {
            target_duckdb_version: target.to_owned(),
            ..ScaffoldConfig::default()
        };
        assert_eq!(
            message(validate_target_duckdb_version(&cfg)),
            format!(
                "target_duckdb_version must be 'vMAJOR.MINOR.PATCH' (e.g. \"v1.5.5\"), got {target:?}"
            )
        );
    }
}
