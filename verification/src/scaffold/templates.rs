//! The content of each generated file.
//!
//! Each generator is the concatenation of fixed text and the configured
//! values; the spec function beside it states that concatenation, which is
//! exactly what the generated file holds.

use vstd::prelude::*;

use super::escape::{doc_comment_lines, spec_doc_comment_lines, spec_yaml_quoted, yaml_quoted};
use super::{libduckdb_sys_requirement, spec_libduckdb_sys_requirement, ScaffoldConfig};
use crate::text::{join_with, push_str, split_chars, split_on, str_chars, string_from_chars};

verus! {

/// The `Makefile` comment explaining `USE_UNSTABLE_C_API=1`.
pub const ABI_NOTE_UNSTABLE: &'static str = "# USE_UNSTABLE_C_API=1: the binary is stamped C_STRUCT_UNSTABLE and DuckDB will\n# only load it into exactly TARGET_DUCKDB_VERSION. Required if you enable\n# quack-rs's `duckdb-1-5` / `-3` / `-4` features, because those wrap C API\n# functions whose slot indices move between DuckDB releases.";

/// The `Makefile` comment explaining `USE_UNSTABLE_C_API=0`.
pub const ABI_NOTE_STABLE: &'static str = "# USE_UNSTABLE_C_API=0: the binary is stamped C_STRUCT and loads into any DuckDB\n# whose C extension API version is >= TARGET_DUCKDB_VERSION. Only valid while you\n# stay off quack-rs's `duckdb-1-5` / `-3` / `-4` features; TARGET_DUCKDB_VERSION\n# is then the *C API* version (v1.2.0), not a DuckDB release. See LESSONS.md P2.";

/// The `Makefile` lines an unstable build adds: the `DuckDB` release `make test` runs against, and the build target declared to the ABI check.
pub const DECLARE_BLOCK: &'static str = "\n# pip version of DuckDB that `make test` runs against: the pinned release.\nDUCKDB_TEST_VERSION=$(patsubst v%,%,$(TARGET_DUCKDB_VERSION))\n\n# Lets quack-rs's ABI check accept a DuckDB release newer than its layout table.\nexport QUACK_RS_TARGET_DUCKDB_VERSION = $(TARGET_DUCKDB_VERSION)\n";

/// The `check_duckdb_pin` rule of an unstable-ABI `Makefile`: it refuses to build when the resolved `libduckdb-sys` and `TARGET_DUCKDB_VERSION` name different `DuckDB` releases.
pub const CHECK_DUCKDB_PIN_TARGET: &'static str = "\n# The bindings compiled in come from the libduckdb-sys pin in Cargo.toml, not\n# from TARGET_DUCKDB_VERSION. Refuse to build when they name different releases.\ncheck_duckdb_pin:\n\t@v=$$(cargo tree -e normal -i libduckdb-sys --depth 0 --prefix none | sed -n 's/^libduckdb-sys v//p' | head -n 1); \\\n\tm=$$(echo \"$$v\" | cut -d. -f2); \\\n\tif [ \"$${m:-0}\" -ge 10000 ] 2>/dev/null; then got=\"v$$((m / 10000)).$$((m / 100 % 100)).$$((m % 100))\"; else got=\"v$$v\"; fi; \\\n\tif [ \"$$got\" != \"$(TARGET_DUCKDB_VERSION)\" ]; then \\\n\t\techo \"error: libduckdb-sys $$v is DuckDB $$got, but TARGET_DUCKDB_VERSION=$(TARGET_DUCKDB_VERSION); update the libduckdb-sys pin in Cargo.toml\" >&2; \\\n\t\texit 1; \\\n\tfi\n";

/// The generated `.gitmodules`.
pub const GITMODULES: &'static str = "[submodule \"extension-ci-tools\"]\n\tpath = extension-ci-tools\n\turl = https://github.com/duckdb/extension-ci-tools\n";

/// The generated `.gitignore`.
pub const GITIGNORE: &'static str = "/target\n*.duckdb\n*.wal\nbuild/\n.env\n__pycache__/\n";

/// The generated `.cargo/config.toml`: the C runtime is linked statically on Windows MSVC targets.
pub const CARGO_CONFIG: &'static str = "# Statically link the C runtime on Windows MSVC targets.\n# This avoids requiring vcredist on end-user machines.\n[target.x86_64-pc-windows-msvc]\nrustflags = [\"-Ctarget-feature=+crt-static\"]\n\n[target.aarch64-pc-windows-msvc]\nrustflags = [\"-Ctarget-feature=+crt-static\"]\n";

/// The generated `src/wasm_lib.rs`: `lib.rs` re-exported as a staticlib for emscripten.
pub const WASM_LIB: &'static str = "// WASM shim: re-exports lib.rs as a staticlib for emscripten compilation.\n// The [[example]] target in Cargo.toml points here with crate-type = [\"staticlib\"].\n// See extension-ci-tools/makefiles/c_api_extensions/rust.Makefile for details.\n#[path = \"lib.rs\"]\nmod lib;\n";

/// Part 1 of the generated `Cargo.toml`.
pub const CARGO_TOML_1: &'static str = "[package]\nname = \"";

/// Part 2 of the generated `Cargo.toml`.
pub const CARGO_TOML_2: &'static str = "\"\nversion = \"";

/// Part 3 of the generated `Cargo.toml`.
pub const CARGO_TOML_3: &'static str = "\"\nedition = \"2021\"\n\n[lib]\nname = \"";

/// Part 4 of the generated `Cargo.toml`.
pub const CARGO_TOML_4: &'static str = "\"\ncrate-type = [\"cdylib\"]\n\n# WASM support: staticlib target for emcc compilation.\n# See extension-ci-tools for details.\n[[example]]\nname = \"";

/// Part 5 of the generated `Cargo.toml`.
pub const CARGO_TOML_5: &'static str = "\"\ncrate-type = [\"staticlib\"]\npath = \"src/wasm_lib.rs\"\n\n[dependencies]\nquack-rs = { version = \"";

/// Part 6 of the generated `Cargo.toml`.
pub const CARGO_TOML_6: &'static str = "\" }\n";

/// Part 7 of the generated `Cargo.toml`.
pub const CARGO_TOML_7: &'static str = "libduckdb-sys = { version = \"";

/// Part 8 of the generated `Cargo.toml`.
pub const CARGO_TOML_8: &'static str = "\", features = [\"loadable-extension\"] }\n\n[profile.release]\nopt-level = 3\nlto = true\ncodegen-units = 1\n# Keep this as `unwind`. quack-rs's callback wrappers (`scalar_callback!`,\n# `table_scan_callback!`) and its extension entry point use `catch_unwind` to\n# turn a panic in your code into a DuckDB error. Switching this to abort-on-panic\n# makes that machinery inert, so any panic kills the whole DuckDB process \u{2014}\n# including an embedding application and the user's session.\npanic = \"unwind\"\nstrip = true\n";

/// Part 1 of the `Cargo.toml` comment on a pinned `libduckdb-sys`.
pub const PIN_NOTE_1: &'static str = "# Pinned to the bindings for DuckDB ";

/// Part 2 of the `Cargo.toml` comment on a pinned `libduckdb-sys`.
pub const PIN_NOTE_2: &'static str = " (TARGET_DUCKDB_VERSION in the\n# Makefile): a C_STRUCT_UNSTABLE binary must be compiled against exactly the\n# release it is stamped for. Change both together; `make release` refuses a\n# mismatch.\n";

/// Part 1 of the generated `Makefile`.
pub const MAKEFILE_1: &'static str = "# DuckDB Rust extension Makefile.\n# Delegates to cargo for building and to extension-ci-tools for metadata.\n\n.PHONY: all configure debug release test test_debug test_release clean clean_all";

/// Part 2 of the generated `Makefile`.
pub const MAKEFILE_2: &'static str = "\n\nPROJ_DIR := $(dir $(abspath $(lastword $(MAKEFILE_LIST))))\n\nEXTENSION_NAME=";

/// Part 3 of the generated `Makefile`.
pub const MAKEFILE_3: &'static str = "\nEXT_CONFIG=$(PROJ_DIR)extension_config.cmake\n\n";

/// Part 4 of the generated `Makefile`.
pub const MAKEFILE_4: &'static str = "\nUSE_UNSTABLE_C_API=";

/// Part 5 of the generated `Makefile`.
pub const MAKEFILE_5: &'static str = "\nTARGET_DUCKDB_VERSION=";

/// Part 6 of the generated `Makefile`.
pub const MAKEFILE_6: &'static str = "\n";

/// Part 7 of the generated `Makefile`.
pub const MAKEFILE_7: &'static str = "\nall: configure release\n\n# Include extension-ci-tools build rules. A freshly generated project has a\n# .gitmodules but no submodule yet, and `git submodule update --init` does\n# nothing until the submodule has been added once (LESSONS.md P4).\nifeq ($(wildcard extension-ci-tools/makefiles/c_api_extensions/base.Makefile),)\n$(error extension-ci-tools is missing. In a new repository run: git submodule add https://github.com/duckdb/extension-ci-tools.git extension-ci-tools -- in a clone of an existing one: git submodule update --init --recursive)\nendif\ninclude extension-ci-tools/makefiles/c_api_extensions/base.Makefile\ninclude extension-ci-tools/makefiles/c_api_extensions/rust.Makefile\n\nconfigure: venv platform extension_version\n\ndebug: ";

/// Part 8 of the generated `Makefile`.
pub const MAKEFILE_8: &'static str = "build_extension_library_debug build_extension_with_metadata_debug\nrelease: ";

/// Part 9 of the generated `Makefile`.
pub const MAKEFILE_9: &'static str = "build_extension_library_release build_extension_with_metadata_release\n";

/// Part 10 of the generated `Makefile`.
pub const MAKEFILE_10: &'static str = "\ntest: test_release\ntest_debug: test_extension_debug\ntest_release: test_extension_release\n\nclean: clean_build clean_rust\nclean_all: clean_configure clean\n";

/// Part 1 of the generated `src/lib.rs`.
pub const LIB_RS_1: &'static str = "\n//!\n//! A DuckDB extension built with [quack-rs](https://github.com/tomtom215/quack-rs).\n\nuse quack_rs::prelude::*;\n\n// ---------------------------------------------------------------------------\n// Example: a simple SQL macro. Replace with your own functions.\n// ---------------------------------------------------------------------------\n\n/// The example function: `";

/// Part 2 of the generated `src/lib.rs`.
pub const LIB_RS_2: &'static str = "_hello(name)` greets `name`.\nfn hello_macro() -> Result<SqlMacro, ExtensionError> {\n    SqlMacro::scalar(\n        \"";

/// Part 3 of the generated `src/lib.rs`.
pub const LIB_RS_3: &'static str = "_hello\",\n        &[\"name\"],\n        \"concat('Hello from ";

/// Part 4 of the generated `src/lib.rs`.
pub const LIB_RS_4: &'static str = "! ', name)\",\n    )\n}\n\n/// Registers all extension functions on the given connection.\nfn register(con: libduckdb_sys::duckdb_connection) -> Result<(), ExtensionError> {\n    // Example: register a scalar SQL macro (no unsafe callbacks needed).\n    // Replace this with your own aggregate, scalar, or table functions.\n    //\n    // SAFETY: `con` is the connection quack-rs opened for this entry point and\n    // is valid for the duration of this function.\n    unsafe {\n        hello_macro()?.register(con)?;\n    }\n    Ok(())\n}\n\n// ---------------------------------------------------------------------------\n// Entry point \u{2014} the C Extension API handles everything, no C++ glue needed.\n// ---------------------------------------------------------------------------\n\nquack_rs::entry_point!(";

/// Part 5 of the generated `src/lib.rs`.
pub const LIB_RS_5: &'static str = "_init_c_api, register);\n\n// Unit tests run under plain `cargo test`: building a function definition\n// needs no DuckDB. Calling into DuckDB does, so behaviour against a real engine\n// is tested in test/sql/";

/// Part 6 of the generated `src/lib.rs`.
pub const LIB_RS_6: &'static str = ".test (SQLLogicTest, run by `make test`).\n#[cfg(test)]\nmod tests {\n    use super::*;\n\n    #[test]\n    fn hello_macro_renders_the_expected_sql() -> Result<(), ExtensionError> {\n        assert_eq!(\n            hello_macro()?.to_sql(),\n            r#\"CREATE OR REPLACE MACRO \"";

/// Part 7 of the generated `src/lib.rs`.
pub const LIB_RS_7: &'static str = "_hello\"(\"name\") AS (concat('Hello from ";

/// Part 8 of the generated `src/lib.rs`.
pub const LIB_RS_8: &'static str = "! ', name))\"#\n        );\n        Ok(())\n    }\n}\n";

/// Part 1 of the head of the generated `description.yml`.
pub const DESCRIPTION_YML_1: &'static str = "extension:\n  name: ";

/// Part 2 of the head of the generated `description.yml`.
pub const DESCRIPTION_YML_2: &'static str = "\n  description: ";

/// Part 3 of the head of the generated `description.yml`.
pub const DESCRIPTION_YML_3: &'static str = "\n  version: ";

/// Part 4 of the head of the generated `description.yml`.
pub const DESCRIPTION_YML_4: &'static str = "\n  language: Rust\n  build: cargo\n  license: ";

/// Part 5 of the head of the generated `description.yml`.
pub const DESCRIPTION_YML_5: &'static str = "\n  requires_toolchains: rust;python3\n";

/// Part 1 of the generated CI workflow.
pub const EXTENSION_CI_1: &'static str = "# GitHub Actions CI for the ";

/// Part 2 of the generated CI workflow.
pub const EXTENSION_CI_2: &'static str = " DuckDB extension.\n# Generated by the quack-rs scaffold \u{2014} customize as needed.\n#\n# The build goes through extension-ci-tools' Makefiles (see ./Makefile), which\n# need the git submodule and a Python 3 virtualenv. `make configure` creates the\n# venv, writes configure/platform.txt and resolves the extension version;\n# `make release` builds the cdylib and appends the DuckDB extension metadata\n# footer; `make test` runs the SQLLogicTests in test/sql against a real DuckDB\n# with the extension loaded.\n\nname: Extension CI\n\non:\n  push:\n    branches: [main]\n  pull_request:\n    branches: [main]\n\nenv:\n  CARGO_TERM_COLOR: always\n\njobs:\n  build:\n    name: Build and test (${{ matrix.platform }})\n    strategy:\n      fail-fast: false\n      matrix:\n        include:\n          - os: ubuntu-latest\n            platform: linux_amd64\n          - os: macos-latest\n            platform: osx_arm64\n          - os: windows-latest\n            platform: windows_amd64\n    runs-on: ${{ matrix.os }}\n    env:\n      DUCKDB_PLATFORM: ${{ matrix.platform }}\n    steps:\n      # Every action is SHA-pinned. A tag or branch is a moving target that the\n      # action's owner can repoint at any time, and a workflow step runs\n      # arbitrary code in your CI.\n      - uses: actions/checkout@9c091bb21b7c1c1d1991bb908d89e4e9dddfe3e0 # v7.0.0\n        with:\n          submodules: recursive\n\n      # Pinned to a commit on the action's `master` branch (2026-09-03), whose\n      # `toolchain:` input is required. Pinning the action does not pin your\n      # Rust version: `toolchain: stable` installs the current stable release\n      # on every run.\n      - uses: dtolnay/rust-toolchain@d1031067263f94b142dd6c0ce24c5eb9d02d52a0 # master 2026-09-03\n        with:\n          toolchain: stable\n          components: clippy, rustfmt\n\n      - uses: Swatinem/rust-cache@c19371144df3bb44fab255c43d04cbc2ab54d1c4 # v2.9.1\n\n      - uses: actions/setup-python@42375524e23c412d93fb67b49958b491fce71c38 # v5.4.0\n        with:\n          python-version: '3.12'\n\n      - name: Lint\n        if: matrix.os == 'ubuntu-latest'\n        run: |\n          cargo fmt -- --check\n          cargo clippy --all-targets -- -D warnings\n\n      - name: Unit tests\n        run: cargo test\n\n      - name: Configure (venv, platform, version)\n        run: make configure\n\n      - name: Build extension with metadata\n        run: make release\n\n      - name: SQLLogicTest (end to end)\n        run: make test\n";

/// Part 1 of the generated `extension_config.cmake`.
pub const CMAKE_1: &'static str = "# Extension configuration for `DuckDB`'s build system.\n# Required by extension-ci-tools even for pure-Rust (cargo) extensions.\n# See: https://github.com/duckdb/extension-ci-tools\n\nduckdb_extension_load(";

/// Part 2 of the generated `extension_config.cmake`.
pub const CMAKE_2: &'static str = "\n\tLOAD_TESTS\n\tGIT_URL https://github.com/";

/// Part 3 of the generated `extension_config.cmake`.
pub const CMAKE_3: &'static str = "\n\tGIT_TAG main\n)\n";

/// Part 1 of the generated SQLLogicTest file.
pub const SQLLOGICTEST_1: &'static str = "# Integration tests for the ";

/// Part 2 of the generated SQLLogicTest file.
pub const SQLLOGICTEST_2: &'static str = " extension.\n# Run via: make test\n#\n# Format reference: https://duckdb.org/dev/sqllogictest/intro.html\n# - query T = VARCHAR result, query I = INTEGER, query R = REAL, query B = BOOLEAN\n# - Expected output must match DuckDB's exact format (see LESSONS.md Pitfall P5)\n\n# Verify the extension loads without error\nrequire ";

/// Part 3 of the generated SQLLogicTest file.
pub const SQLLOGICTEST_3: &'static str = "\n\n# The example function registered in src/lib.rs.\nquery T\nSELECT ";

/// Part 4 of the generated SQLLogicTest file.
pub const SQLLOGICTEST_4: &'static str = "_hello('world');\n----\nHello from ";

/// Part 5 of the generated SQLLogicTest file.
pub const SQLLOGICTEST_5: &'static str = "! world\n\n# One row per input row.\nquery T\nSELECT ";

/// Part 6 of the generated SQLLogicTest file.
pub const SQLLOGICTEST_6: &'static str = "_hello(x) FROM (VALUES ('a'), ('b')) t(x) ORDER BY x;\n----\nHello from ";

/// Part 7 of the generated SQLLogicTest file.
pub const SQLLOGICTEST_7: &'static str = "! a\nHello from ";

/// Part 8 of the generated SQLLogicTest file.
pub const SQLLOGICTEST_8: &'static str = "! b\n\n# ---- Add a test like these for each function you add. ----\n# For example, an aggregate you register as ";

/// Part 9 of the generated SQLLogicTest file.
pub const SQLLOGICTEST_9: &'static str = "_count:\n# query I\n# SELECT ";

/// Part 10 of the generated SQLLogicTest file.
pub const SQLLOGICTEST_10: &'static str = "_count(col) FROM (VALUES (1), (2), (3)) t(col);\n# ----\n# 3\n";

/// The version of this crate, which generated projects depend on.
pub const CRATE_VERSION: &'static str = "0.1.0";

/// The `quack-rs` version requirement written into generated `Cargo.toml`
/// files: the major.minor of this crate's version.
pub open spec fn spec_quack_rs_dependency_version() -> Seq<char> {
    let p = split_on(CRATE_VERSION@, '.');
    if p.len() >= 2 {
        p[0] + "."@ + p[1]
    } else {
        CRATE_VERSION@
    }
}

/// The `quack-rs` version requirement written into generated `Cargo.toml`
/// files: the major.minor of this crate's version.
pub fn quack_rs_dependency_version() -> (s: String)
    ensures
        s@ == spec_quack_rs_dependency_version(),
{
    let chars = str_chars(CRATE_VERSION);
    let parts = split_chars(chars.as_slice(), '.');
    if parts.len() >= 2 {
        let mut s = string_from_chars(parts[0].as_slice());
        push_str(&mut s, ".");
        let minor = string_from_chars(parts[1].as_slice());
        push_str(&mut s, minor.as_str());
        s
    } else {
        CRATE_VERSION.to_owned()
    }
}

/// The `libduckdb-sys` requirement of a generated `Cargo.toml`: for an
/// unstable-ABI build the exact release its target names (falling back to
/// the open range if none can be derived), otherwise any 1.x from 1.4.4.
pub open spec fn spec_libduckdb_sys_dependency(c: ScaffoldConfig) -> Seq<char> {
    if c.use_unstable_c_api {
        match spec_libduckdb_sys_requirement(c.target_duckdb_version@) {
            Ok(r) => r,
            Err(_) => ">=1.4.4, <2"@,
        }
    } else {
        ">=1.4.4, <2"@
    }
}

fn libduckdb_sys_dependency(config: &ScaffoldConfig) -> (s: String)
    ensures
        s@ == spec_libduckdb_sys_dependency(*config),
{
    if config.use_unstable_c_api {
        match libduckdb_sys_requirement(config.target_duckdb_version.as_str()) {
            Ok(r) => r,
            Err(_) => ">=1.4.4, <2".to_owned(),
        }
    } else {
        ">=1.4.4, <2".to_owned()
    }
}

/// The `Cargo.toml` comment above a `libduckdb-sys` pinned to one `DuckDB` release.
pub open spec fn spec_pin_note(c: ScaffoldConfig) -> Seq<char> {
    PIN_NOTE_1@
        + c.target_duckdb_version@
        + PIN_NOTE_2@
}


/// The generated `Cargo.toml`: a `cdylib` named after the extension, a staticlib example for WASM, `libduckdb-sys` pinned to the target release for an unstable-ABI build, and a release profile that keeps `panic = "unwind"`.
pub open spec fn spec_cargo_toml(c: ScaffoldConfig) -> Seq<char> {
    CARGO_TOML_1@
        + c.name@
        + CARGO_TOML_2@
        + c.version@
        + CARGO_TOML_3@
        + c.name@
        + CARGO_TOML_4@
        + c.name@
        + CARGO_TOML_5@
        + spec_quack_rs_dependency_version()
        + CARGO_TOML_6@
        + (if c.use_unstable_c_api { spec_pin_note(c) } else { Seq::empty() })
        + CARGO_TOML_7@
        + spec_libduckdb_sys_dependency(c)
        + CARGO_TOML_8@
}


/// `t` occurs in `f`.
pub open spec fn has_text(f: Seq<char>, t: Seq<char>) -> bool {
    exists|i: int| 0 <= i && i + t.len() <= f.len() && #[trigger] f.subrange(i, i + t.len()) == t
}

/// The generated `Cargo.toml` opens with the `[package]` table, naming the
/// package after the extension with the configured version, and then names
/// the `[lib]` after the extension too.
pub proof fn lemma_cargo_toml_package(c: ScaffoldConfig)
    ensures
        ("[package]\nname = \""@ + c.name@ + "\"\nversion = \""@ + c.version@
            + "\"\nedition = \"2021\"\n\n[lib]\nname = \""@ + c.name@ + "\"\n"@).is_prefix_of(
            spec_cargo_toml(c),
        ),
{
    reveal_strlit("[package]\nname = \"");
    reveal_strlit("\"\nversion = \"");
    reveal_strlit("\"\nedition = \"2021\"\n\n[lib]\nname = \"");
    reveal_strlit("\"\n");
    reveal_strlit("\"\ncrate-type = [\"cdylib\"]\n\n# WASM support: staticlib target for emcc compilation.\n# See extension-ci-tools for details.\n[[example]]\nname = \"");
    let t4 = CARGO_TOML_4@;
    assert(t4 =~= "\"\n"@ + t4.skip(2));
    let head = "[package]\nname = \""@ + c.name@ + "\"\nversion = \""@ + c.version@
        + "\"\nedition = \"2021\"\n\n[lib]\nname = \""@ + c.name@ + "\"\n"@;
    let f = spec_cargo_toml(c);
    let rest = t4.skip(2) + c.name@ + CARGO_TOML_5@ + spec_quack_rs_dependency_version()
        + CARGO_TOML_6@ + (if c.use_unstable_c_api {
        spec_pin_note(c)
    } else {
        Seq::empty()
    }) + CARGO_TOML_7@ + spec_libduckdb_sys_dependency(c) + CARGO_TOML_8@;
    assert(f =~= head + rest);
    assert(f.subrange(0, head.len() as int) =~= head);
}

/// The generated `Cargo.toml` depends on `libduckdb-sys` with the
/// `loadable-extension` feature: pinned to the release the target names for
/// an unstable-ABI build whose target names one, and `>=1.4.4, <2`
/// otherwise.
pub proof fn lemma_cargo_toml_libduckdb_sys(c: ScaffoldConfig)
    ensures
        has_text(
            spec_cargo_toml(c),
            "libduckdb-sys = { version = \""@ + (if c.use_unstable_c_api
                && spec_libduckdb_sys_requirement(c.target_duckdb_version@) is Ok {
                spec_libduckdb_sys_requirement(c.target_duckdb_version@)->Ok_0
            } else {
                ">=1.4.4, <2"@
            }) + "\", features = [\"loadable-extension\"] }\n"@,
        ),
{
    reveal_strlit("libduckdb-sys = { version = \"");
    reveal_strlit("\", features = [\"loadable-extension\"] }\n");
    reveal_strlit("\", features = [\"loadable-extension\"] }\n\n[profile.release]\nopt-level = 3\nlto = true\ncodegen-units = 1\n# Keep this as `unwind`. quack-rs's callback wrappers (`scalar_callback!`,\n# `table_scan_callback!`) and its extension entry point use `catch_unwind` to\n# turn a panic in your code into a DuckDB error. Switching this to abort-on-panic\n# makes that machinery inert, so any panic kills the whole DuckDB process \u{2014}\n# including an embedding application and the user's session.\npanic = \"unwind\"\nstrip = true\n");
    let t8 = CARGO_TOML_8@;
    let close = "\", features = [\"loadable-extension\"] }\n"@;
    assert(t8 =~= close + t8.skip(close.len() as int));
    let line = CARGO_TOML_7@ + spec_libduckdb_sys_dependency(c) + close;
    let before = CARGO_TOML_1@ + c.name@ + CARGO_TOML_2@ + c.version@ + CARGO_TOML_3@ + c.name@
        + CARGO_TOML_4@ + c.name@ + CARGO_TOML_5@ + spec_quack_rs_dependency_version()
        + CARGO_TOML_6@ + (if c.use_unstable_c_api {
        spec_pin_note(c)
    } else {
        Seq::empty()
    });
    let f = spec_cargo_toml(c);
    assert(f =~= before + line + t8.skip(close.len() as int));
    let i = before.len() as int;
    assert(f.subrange(i, i + line.len()) =~= line);
}

/// The generated `src/lib.rs` opens with the description as `//!` lines.
pub proof fn lemma_lib_rs_opens_with_description(c: ScaffoldConfig)
    ensures
        spec_doc_comment_lines(c.description@).is_prefix_of(spec_lib_rs(c)),
{
    let d = spec_doc_comment_lines(c.description@);
    assert(spec_lib_rs(c).subrange(0, d.len() as int) =~= d);
}

/// The generated `Makefile`: the variables `extension-ci-tools` reads, a check for the submodule before its include, the targets users invoke, and — for an unstable-ABI build — the pinned test release and the `check_duckdb_pin` guard.
pub open spec fn spec_makefile(c: ScaffoldConfig) -> Seq<char> {
    MAKEFILE_1@
        + (if c.use_unstable_c_api { " check_duckdb_pin"@ } else { Seq::empty() })
        + MAKEFILE_2@
        + c.name@
        + MAKEFILE_3@
        + (if c.use_unstable_c_api { ABI_NOTE_UNSTABLE@ } else { ABI_NOTE_STABLE@ })
        + MAKEFILE_4@
        + (if c.use_unstable_c_api { "1"@ } else { "0"@ })
        + MAKEFILE_5@
        + c.target_duckdb_version@
        + MAKEFILE_6@
        + (if c.use_unstable_c_api { DECLARE_BLOCK@ } else { Seq::empty() })
        + MAKEFILE_7@
        + (if c.use_unstable_c_api { "check_duckdb_pin "@ } else { Seq::empty() })
        + MAKEFILE_8@
        + (if c.use_unstable_c_api { "check_duckdb_pin "@ } else { Seq::empty() })
        + MAKEFILE_9@
        + (if c.use_unstable_c_api { CHECK_DUCKDB_PIN_TARGET@ } else { Seq::empty() })
        + MAKEFILE_10@
}


/// The generated `src/lib.rs`: the description as `//!` lines, an example SQL macro `{name}_hello`, its registration, the entry point and a unit test of the macro.
pub open spec fn spec_lib_rs(c: ScaffoldConfig) -> Seq<char> {
    spec_doc_comment_lines(c.description@)
        + LIB_RS_1@
        + c.name@
        + LIB_RS_2@
        + c.name@
        + LIB_RS_3@
        + c.name@
        + LIB_RS_4@
        + c.name@
        + LIB_RS_5@
        + c.name@
        + LIB_RS_6@
        + c.name@
        + LIB_RS_7@
        + c.name@
        + LIB_RS_8@
}


/// The `extension:` fields of the generated `description.yml` up to the toolchains; free text and the version are YAML-quoted.
pub open spec fn spec_description_yml_head(c: ScaffoldConfig) -> Seq<char> {
    DESCRIPTION_YML_1@
        + c.name@
        + DESCRIPTION_YML_2@
        + spec_yaml_quoted(c.description@)
        + DESCRIPTION_YML_3@
        + spec_yaml_quoted(c.version@)
        + DESCRIPTION_YML_4@
        + c.license@
        + DESCRIPTION_YML_5@
}


/// The generated GitHub Actions workflow: it builds and tests on Linux, macOS and Windows with SHA-pinned actions, running `make configure`, `make release` and `make test` in that order.
pub open spec fn spec_extension_ci(c: ScaffoldConfig) -> Seq<char> {
    EXTENSION_CI_1@
        + c.name@
        + EXTENSION_CI_2@
}


/// The generated `extension_config.cmake`, which `extension-ci-tools` requires even for a cargo-built extension.
pub open spec fn spec_extension_config_cmake(c: ScaffoldConfig) -> Seq<char> {
    CMAKE_1@
        + c.name@
        + CMAKE_2@
        + c.github_repo@
        + CMAKE_3@
}


/// The generated SQLLogicTest file: it requires the extension and queries `{name}_hello` with its expected output.
pub open spec fn spec_sqllogictest(c: ScaffoldConfig) -> Seq<char> {
    SQLLOGICTEST_1@
        + c.name@
        + SQLLOGICTEST_2@
        + c.name@
        + SQLLOGICTEST_3@
        + c.name@
        + SQLLOGICTEST_4@
        + c.name@
        + SQLLOGICTEST_5@
        + c.name@
        + SQLLOGICTEST_6@
        + c.name@
        + SQLLOGICTEST_7@
        + c.name@
        + SQLLOGICTEST_8@
        + c.name@
        + SQLLOGICTEST_9@
        + c.name@
        + SQLLOGICTEST_10@
}


/// The `Cargo.toml` comment above a `libduckdb-sys` pinned to one `DuckDB` release.
pub fn pin_note(config: &ScaffoldConfig) -> (s: String)
    ensures
        s@ == spec_pin_note(*config),
{
    let mut s = String::new();
    push_str(&mut s, PIN_NOTE_1);
    push_str(&mut s, config.target_duckdb_version.as_str());
    push_str(&mut s, PIN_NOTE_2);
    s
}

/// The generated `Cargo.toml`: a `cdylib` named after the extension, a staticlib example for WASM, `libduckdb-sys` pinned to the target release for an unstable-ABI build, and a release profile that keeps `panic = "unwind"`.
pub fn generate_cargo_toml(config: &ScaffoldConfig) -> (s: String)
    ensures
        s@ == spec_cargo_toml(*config),
{
    let quack_rs = quack_rs_dependency_version();
    let libduckdb_sys = libduckdb_sys_dependency(config);
    let note = if config.use_unstable_c_api { pin_note(config) } else { String::new() };
    let mut s = String::new();
    push_str(&mut s, CARGO_TOML_1);
    push_str(&mut s, config.name.as_str());
    push_str(&mut s, CARGO_TOML_2);
    push_str(&mut s, config.version.as_str());
    push_str(&mut s, CARGO_TOML_3);
    push_str(&mut s, config.name.as_str());
    push_str(&mut s, CARGO_TOML_4);
    push_str(&mut s, config.name.as_str());
    push_str(&mut s, CARGO_TOML_5);
    push_str(&mut s, quack_rs.as_str());
    push_str(&mut s, CARGO_TOML_6);
    push_str(&mut s, note.as_str());
    push_str(&mut s, CARGO_TOML_7);
    push_str(&mut s, libduckdb_sys.as_str());
    push_str(&mut s, CARGO_TOML_8);
    s
}

/// The generated `Makefile`: the variables `extension-ci-tools` reads, a check for the submodule before its include, the targets users invoke, and — for an unstable-ABI build — the pinned test release and the `check_duckdb_pin` guard.
pub fn generate_makefile(config: &ScaffoldConfig) -> (s: String)
    ensures
        s@ == spec_makefile(*config),
{
    let unstable = config.use_unstable_c_api;
    let phony_check: &str = if unstable { " check_duckdb_pin" } else { "" };
    let abi_note: &str = if unstable { ABI_NOTE_UNSTABLE } else { ABI_NOTE_STABLE };
    let flag: &str = if unstable { "1" } else { "0" };
    let declare_block: &str = if unstable { DECLARE_BLOCK } else { "" };
    let check_prereq: &str = if unstable { "check_duckdb_pin " } else { "" };
    let check_target: &str = if unstable { CHECK_DUCKDB_PIN_TARGET } else { "" };
    proof {
        reveal_strlit("");
    }
    let mut s = String::new();
    push_str(&mut s, MAKEFILE_1);
    push_str(&mut s, phony_check);
    push_str(&mut s, MAKEFILE_2);
    push_str(&mut s, config.name.as_str());
    push_str(&mut s, MAKEFILE_3);
    push_str(&mut s, abi_note);
    push_str(&mut s, MAKEFILE_4);
    push_str(&mut s, flag);
    push_str(&mut s, MAKEFILE_5);
    push_str(&mut s, config.target_duckdb_version.as_str());
    push_str(&mut s, MAKEFILE_6);
    push_str(&mut s, declare_block);
    push_str(&mut s, MAKEFILE_7);
    push_str(&mut s, check_prereq);
    push_str(&mut s, MAKEFILE_8);
    push_str(&mut s, check_prereq);
    push_str(&mut s, MAKEFILE_9);
    push_str(&mut s, check_target);
    push_str(&mut s, MAKEFILE_10);
    s
}

/// The generated `src/lib.rs`: the description as `//!` lines, an example SQL macro `{name}_hello`, its registration, the entry point and a unit test of the macro.
pub fn generate_lib_rs(config: &ScaffoldConfig) -> (s: String)
    ensures
        s@ == spec_lib_rs(*config),
{
    let description = doc_comment_lines(config.description.as_str());
    let mut s = String::new();
    push_str(&mut s, description.as_str());
    push_str(&mut s, LIB_RS_1);
    push_str(&mut s, config.name.as_str());
    push_str(&mut s, LIB_RS_2);
    push_str(&mut s, config.name.as_str());
    push_str(&mut s, LIB_RS_3);
    push_str(&mut s, config.name.as_str());
    push_str(&mut s, LIB_RS_4);
    push_str(&mut s, config.name.as_str());
    push_str(&mut s, LIB_RS_5);
    push_str(&mut s, config.name.as_str());
    push_str(&mut s, LIB_RS_6);
    push_str(&mut s, config.name.as_str());
    push_str(&mut s, LIB_RS_7);
    push_str(&mut s, config.name.as_str());
    push_str(&mut s, LIB_RS_8);
    s
}

/// The `extension:` fields of the generated `description.yml` up to the toolchains; free text and the version are YAML-quoted.
pub fn description_yml_head(config: &ScaffoldConfig) -> (s: String)
    ensures
        s@ == spec_description_yml_head(*config),
{
    let description = yaml_quoted(config.description.as_str());
    let version = yaml_quoted(config.version.as_str());
    let mut s = String::new();
    push_str(&mut s, DESCRIPTION_YML_1);
    push_str(&mut s, config.name.as_str());
    push_str(&mut s, DESCRIPTION_YML_2);
    push_str(&mut s, description.as_str());
    push_str(&mut s, DESCRIPTION_YML_3);
    push_str(&mut s, version.as_str());
    push_str(&mut s, DESCRIPTION_YML_4);
    push_str(&mut s, config.license.as_str());
    push_str(&mut s, DESCRIPTION_YML_5);
    s
}

/// The generated GitHub Actions workflow: it builds and tests on Linux, macOS and Windows with SHA-pinned actions, running `make configure`, `make release` and `make test` in that order.
pub fn generate_extension_ci(config: &ScaffoldConfig) -> (s: String)
    ensures
        s@ == spec_extension_ci(*config),
{
    let mut s = String::new();
    push_str(&mut s, EXTENSION_CI_1);
    push_str(&mut s, config.name.as_str());
    push_str(&mut s, EXTENSION_CI_2);
    s
}

/// The generated `extension_config.cmake`, which `extension-ci-tools` requires even for a cargo-built extension.
pub fn generate_extension_config_cmake(config: &ScaffoldConfig) -> (s: String)
    ensures
        s@ == spec_extension_config_cmake(*config),
{
    let mut s = String::new();
    push_str(&mut s, CMAKE_1);
    push_str(&mut s, config.name.as_str());
    push_str(&mut s, CMAKE_2);
    push_str(&mut s, config.github_repo.as_str());
    push_str(&mut s, CMAKE_3);
    s
}

/// The generated SQLLogicTest file: it requires the extension and queries `{name}_hello` with its expected output.
pub fn generate_sqllogictest(config: &ScaffoldConfig) -> (s: String)
    ensures
        s@ == spec_sqllogictest(*config),
{
    let mut s = String::new();
    push_str(&mut s, SQLLOGICTEST_1);
    push_str(&mut s, config.name.as_str());
    push_str(&mut s, SQLLOGICTEST_2);
    push_str(&mut s, config.name.as_str());
    push_str(&mut s, SQLLOGICTEST_3);
    push_str(&mut s, config.name.as_str());
    push_str(&mut s, SQLLOGICTEST_4);
    push_str(&mut s, config.name.as_str());
    push_str(&mut s, SQLLOGICTEST_5);
    push_str(&mut s, config.name.as_str());
    push_str(&mut s, SQLLOGICTEST_6);
    push_str(&mut s, config.name.as_str());
    push_str(&mut s, SQLLOGICTEST_7);
    push_str(&mut s, config.name.as_str());
    push_str(&mut s, SQLLOGICTEST_8);
    push_str(&mut s, config.name.as_str());
    push_str(&mut s, SQLLOGICTEST_9);
    push_str(&mut s, config.name.as_str());
    push_str(&mut s, SQLLOGICTEST_10);
    s
}

/// The generated `.gitmodules`: the `extension-ci-tools` submodule.
pub fn generate_gitmodules() -> (s: String)
    ensures
        s@ == GITMODULES@,
{
    GITMODULES.to_owned()
}

/// The generated `.gitignore`.
pub fn generate_gitignore() -> (s: String)
    ensures
        s@ == GITIGNORE@,
{
    GITIGNORE.to_owned()
}

/// The generated `.cargo/config.toml`.
pub fn generate_cargo_config() -> (s: String)
    ensures
        s@ == CARGO_CONFIG@,
{
    CARGO_CONFIG.to_owned()
}

/// The generated `src/wasm_lib.rs`.
pub fn generate_wasm_lib() -> (s: String)
    ensures
        s@ == WASM_LIB@,
{
    WASM_LIB.to_owned()
}

/// The excluded platforms joined by `;`, as `description.yml` lists them.
pub open spec fn spec_platform_list(c: ScaffoldConfig) -> Seq<char> {
    join_with(c.excluded_platforms@.map_values(|p: String| p@), seq![';'])
}

fn platform_list(config: &ScaffoldConfig) -> (s: String)
    ensures
        s@ == spec_platform_list(*config),
{
    let ghost views = config.excluded_platforms@.map_values(|p: String| p@);
    let mut s = String::new();
    let mut i: usize = 0;
    assert(views.take(0) =~= Seq::<Seq<char>>::empty());
    while i < config.excluded_platforms.len()
        invariant
            i <= config.excluded_platforms@.len(),
            views == config.excluded_platforms@.map_values(|p: String| p@),
            s@ == join_with(views.take(i as int), seq![';']),
        decreases config.excluded_platforms@.len() - i,
    {
        let ghost before = s@;
        if i > 0 {
            push_str(&mut s, ";");
        }
        push_str(&mut s, config.excluded_platforms[i].as_str());
        proof {
            reveal_strlit(";");
            assert(views.take(i + 1).drop_last() =~= views.take(i as int));
            assert(views.take(i + 1).last() == config.excluded_platforms@[i as int]@);
            if i == 0 {
                assert(before =~= Seq::<char>::empty());
                assert(s@ =~= views.take(1)[0]);
            } else {
                assert(s@ =~= before + seq![';'] + views.take(i + 1).last());
            }
        }
        i = i + 1;
    }
    assert(views.take(views.len() as int) =~= views);
    s
}

/// The generated `description.yml`: the extension's metadata (free text and
/// the version YAML-quoted), the excluded platforms if any, the maintainer,
/// the repository with its `ref` (which must be a commit hash), and a `docs:`
/// section whose example calls the function the scaffold registers.
pub open spec fn spec_description_yml(c: ScaffoldConfig) -> Seq<char> {
    spec_description_yml_head(c) + (if c.excluded_platforms@.len() == 0 {
        Seq::empty()
    } else {
        "  excluded_platforms: \""@ + spec_platform_list(c) + "\"\n"@
    }) + "  maintainers:\n    - "@ + spec_yaml_quoted(c.maintainer@) + "\n\nrepo:\n  github: "@
        + c.github_repo@ + "\n  # Must be a commit hash, not a branch.\n  ref: "@ + c.git_ref@
        + YML_REF_TAIL@ + c.name@ + "_hello('world');\n  extended_description: "@
        + spec_yaml_quoted(c.description@) + "\n"@
}

/// The `description.yml` text between the `ref:` line and the example query.
pub const YML_REF_TAIL: &'static str = "\n  # ref_next: <hash>   # optional: a revision compatible with DuckDB main,\n  #                    # used while a new DuckDB release is being prepared.\n\ndocs:\n  hello_world: |\n    SELECT ";

/// The generated `description.yml`.
pub fn generate_description_yml(config: &ScaffoldConfig) -> (s: String)
    ensures
        s@ == spec_description_yml(*config),
{
    let mut s = description_yml_head(config);
    if config.excluded_platforms.len() > 0 {
        push_str(&mut s, "  excluded_platforms: \"");
        let platforms = platform_list(config);
        push_str(&mut s, platforms.as_str());
        push_str(&mut s, "\"\n");
    } else {
        proof {
            assert(s@ + Seq::<char>::empty() =~= s@);
        }
    }
    push_str(&mut s, "  maintainers:\n    - ");
    let maintainer = yaml_quoted(config.maintainer.as_str());
    push_str(&mut s, maintainer.as_str());
    push_str(&mut s, "\n\nrepo:\n  github: ");
    push_str(&mut s, config.github_repo.as_str());
    push_str(&mut s, "\n  # Must be a commit hash, not a branch.\n  ref: ");
    push_str(&mut s, config.git_ref.as_str());
    push_str(&mut s, YML_REF_TAIL);
    push_str(&mut s, config.name.as_str());
    push_str(&mut s, "_hello('world');\n  extended_description: ");
    let description = yaml_quoted(config.description.as_str());
    push_str(&mut s, description.as_str());
    push_str(&mut s, "\n");
    s
}

} // verus!
