//! Extension-defined configuration options: their scope, and the checks a
//! new option goes through before it is registered.

use vstd::prelude::*;

use crate::error::ExtensionError;
use crate::text::{debug_quoted, push_str, quoted};

verus! {

/// Scope in which a configuration option takes effect.
#[derive(Debug, Clone, Copy, PartialEq, Eq, Structural, Hash)]
pub enum ConfigOptionScope {
    /// Option is local to the current statement.
    Local,
    /// Option is scoped to the current session.
    Session,
    /// Option applies globally to the database.
    Global,
}

/// The `duckdb_config_option_scope` constant of each scope.
pub open spec fn scope_code(scope: ConfigOptionScope) -> u32 {
    match scope {
        ConfigOptionScope::Local => 1,
        ConfigOptionScope::Session => 2,
        ConfigOptionScope::Global => 3,
    }
}

impl ConfigOptionScope {
    /// Converts to the `DuckDB` C API scope constant.
    pub fn to_raw(self) -> (r: u32)
        ensures
            r == scope_code(self),
    {
        match self {
            ConfigOptionScope::Local => 1,
            ConfigOptionScope::Session => 2,
            ConfigOptionScope::Global => 3,
        }
    }
}

/// Distinct scopes have distinct C API constants.
pub proof fn lemma_scope_codes_distinct(a: ConfigOptionScope, b: ConfigOptionScope)
    ensures
        scope_code(a) == scope_code(b) <==> a == b,
{
}

/// Each scope carries its `DUCKDB_CONFIG_OPTION_SCOPE_*` constant of the C
/// API: local 1, session 2, global 3.
pub proof fn lemma_scope_codes_are_the_c_api_constants()
    ensures
        scope_code(ConfigOptionScope::Local) == 1,
        scope_code(ConfigOptionScope::Session) == 2,
        scope_code(ConfigOptionScope::Global) == 3,
{
}

/// Why a configuration option named `name` cannot be registered: its type
/// is unset or a pseudo-type (`pseudo_type` names it, as the caller finds
/// it among `ANY`, `NULL`, `INTEGER_LITERAL` and `STRING_LITERAL`), or it has
/// no default value, which `DuckDB` would treat as unset.
pub open spec fn config_parts_error(
    name: Seq<char>,
    type_set: bool,
    pseudo_type: Option<Seq<char>>,
    has_default: bool,
) -> Option<Seq<char>> {
    if !type_set {
        Some("config option type not set"@)
    } else if pseudo_type is Some {
        Some(
            "config option '"@ + name + "': "@ + pseudo_type->0
                + " cannot be the type of a config option; it is a pseudo-type that no value is stored as. Use a concrete type such as VARCHAR."@,
        )
    } else if !has_default {
        Some(
            "config option '"@ + name
                + "' has no default value. DuckDB treats an extension option without one as unset: current_setting('"@
                + name
                + "') fails with \"unrecognized configuration parameter\" until it is SET. Call default_value(...)."@,
        )
    } else {
        None
    }
}

/// An optional string by its view.
pub open spec fn str_opt_view(s: Option<&str>) -> Option<Seq<char>> {
    match s {
        Some(t) => Some(t@),
        None => None,
    }
}

/// The checks on a configuration option builder that need no `DuckDB`
/// call.
pub fn check_config_parts(name: &str, type_set: bool, pseudo_type: Option<&str>, has_default: bool) -> (r: Result<(), ExtensionError>)
    ensures
        r is Ok <==> config_parts_error(name@, type_set, str_opt_view(pseudo_type), has_default) is None,
        r matches Err(e) ==> config_parts_error(name@, type_set, str_opt_view(pseudo_type), has_default) == Some(e@),
{
    if !type_set {
        return Err(ExtensionError::new("config option type not set"));
    }
    match pseudo_type {
        Some(t) => {
            let mut m = String::new();
            push_str(&mut m, "config option '");
            push_str(&mut m, name);
            push_str(&mut m, "': ");
            push_str(&mut m, t);
            push_str(
                &mut m,
                " cannot be the type of a config option; it is a pseudo-type that no value is stored as. Use a concrete type such as VARCHAR.",
            );
            return Err(ExtensionError::from_string(m));
        },
        None => {},
    }
    if !has_default {
        let mut m = String::new();
        push_str(&mut m, "config option '");
        push_str(&mut m, name);
        push_str(
            &mut m,
            "' has no default value. DuckDB treats an extension option without one as unset: current_setting('",
        );
        push_str(&mut m, name);
        push_str(
            &mut m,
            "') fails with \"unrecognized configuration parameter\" until it is SET. Call default_value(...).",
        );
        return Err(ExtensionError::from_string(m));
    }
    Ok(())
}

/// The query that counts the settings, and setting aliases, named `$1`
/// regardless of case. Every function is qualified with `system.main`, so a
/// user macro of the same name cannot change what it computes.
pub const SETTING_PROBE_SQL: &'static str = "SELECT (SELECT count(*) FROM system.main.duckdb_settings() WHERE system.main.lower(name) = system.main.lower($1)) + (SELECT count(*) FROM (SELECT system.main.unnest(aliases) AS alias FROM system.main.duckdb_settings()) WHERE system.main.lower(alias) = system.main.lower($1))";

/// The message for a name check on `name` that could not be made.
pub open spec fn setting_check_message(name: Seq<char>, detail: Seq<char>) -> Seq<char> {
    "config option '"@ + name + "': cannot check whether the name is taken: "@ + detail
}

/// The error for a name check on `name` that could not be made, with what
/// went wrong.
pub fn setting_check_error(name: &str, detail: &str) -> (e: ExtensionError)
    ensures
        e@ == setting_check_message(name@, detail@),
{
    let mut m = String::new();
    push_str(&mut m, "config option '");
    push_str(&mut m, name);
    push_str(&mut m, "': cannot check whether the name is taken: ");
    push_str(&mut m, detail);
    ExtensionError::from_string(m)
}

/// What running [`SETTING_PROBE_SQL`] for a name gave.
#[derive(Debug, Clone, PartialEq, Eq)]
pub enum SettingProbe {
    /// Preparing, binding, running or fetching failed with this message.
    Failed(String),
    /// The query returned no chunk.
    NoRows,
    /// The first chunk: its row and column counts, and the count in its
    /// first cell when it has one row and one column.
    Chunk { rows: u64, columns: u64, taken: i64 },
}

/// What the probe says of the name `name`: an error when the check could
/// not be made (the probe failed, returned no rows or a chunk that is not
/// one row of one column) or when the count of settings so named is not
/// zero, so that `DuckDB` already has such a setting.
pub open spec fn setting_taken_error(name: Seq<char>, probe: SettingProbe) -> Option<Seq<char>> {
    match probe {
        SettingProbe::Failed(detail) => Some(setting_check_message(name, detail@)),
        SettingProbe::NoRows => Some(setting_check_message(name, "the check returned no rows"@)),
        SettingProbe::Chunk { rows, columns, taken } => if rows != 1 || columns != 1 {
            Some(setting_check_message(name, "the check returned an unexpected shape"@))
        } else if taken == 0 {
            None
        } else {
            Some(
                "config option '"@ + name
                    + "' already exists: DuckDB already has a setting (or setting alias) with this name \u{2014} see `SELECT * FROM duckdb_settings()`. Registering it would fail, or silently shadow the built-in setting in current_setting(). Choose a name prefixed with your extension's name."@,
            )
        },
    }
}

/// Refuses a configuration option whose name `DuckDB` already uses, or
/// whose name could not be checked, given what [`SETTING_PROBE_SQL`] gave.
pub fn setting_taken_verdict(name: &str, probe: &SettingProbe) -> (r: Result<(), ExtensionError>)
    ensures
        r is Ok <==> setting_taken_error(name@, *probe) is None,
        r matches Err(e) ==> setting_taken_error(name@, *probe) == Some(e@),
{
    match probe {
        SettingProbe::Failed(detail) => Err(setting_check_error(name, detail.as_str())),
        SettingProbe::NoRows => Err(setting_check_error(name, "the check returned no rows")),
        SettingProbe::Chunk { rows, columns, taken } => {
            if *rows != 1 || *columns != 1 {
                return Err(setting_check_error(name, "the check returned an unexpected shape"));
            }
            if *taken == 0 {
                return Ok(());
            }
            let mut m = String::new();
            push_str(&mut m, "config option '");
            push_str(&mut m, name);
            push_str(
                &mut m,
                "' already exists: DuckDB already has a setting (or setting alias) with this name \u{2014} see `SELECT * FROM duckdb_settings()`. Registering it would fail, or silently shadow the built-in setting in current_setting(). Choose a name prefixed with your extension's name.",
            );
            Err(ExtensionError::from_string(m))
        },
    }
}

// ─── the default value ───────────────────────────────────────────────────────

/// The query that converts a default value, bound as `$1`, to the option's
/// type `sql_type` with the cast `SET` uses; `NULL` where it does not
/// convert.
pub open spec fn spec_typed_default_sql(sql_type: Seq<char>) -> Seq<char> {
    "SELECT TRY_CAST($1::VARCHAR AS "@ + sql_type + ")"@
}

/// The query that converts a default value to the type `sql_type`.
pub fn typed_default_sql(sql_type: &str) -> (s: String)
    ensures
        s@ == spec_typed_default_sql(sql_type@),
{
    let mut s = String::new();
    push_str(&mut s, "SELECT TRY_CAST($1::VARCHAR AS ");
    push_str(&mut s, sql_type);
    push_str(&mut s, ")");
    s
}

/// What converting a default value with [`typed_default_sql`] gave.
#[derive(Debug, Clone, PartialEq, Eq)]
pub enum DefaultConversion {
    /// Preparing, binding, running or fetching failed with this message.
    Failed(String),
    /// The query returned no chunk.
    NoRows,
    /// The first chunk had this many rows and columns.
    Shape(u64, u64),
    /// The cast gave `NULL`: the default does not convert.
    Null,
    /// The value converted, but no `DuckDB` value of that type can be built
    /// from it without a cast that may abort the process.
    Unsupported,
    /// The value converted and a `DuckDB` value was built from it.
    Converted,
}

/// The message for a default value of option `name` whose conversion to
/// `sql_type` could not be made, with what went wrong.
pub open spec fn default_context_message(
    name: Seq<char>,
    default: Seq<char>,
    sql_type: Seq<char>,
    detail: Seq<char>,
) -> Seq<char> {
    "config option '"@ + name + "': cannot convert default value "@ + quoted(default) + " to "@
        + sql_type + ": "@ + detail
}

/// What a step of the conversion of the default `default` of option `name`
/// to `sql_type` says: an error when the query failed, returned no rows or a
/// chunk that is not one row of one column, when the cast gave `NULL`, or
/// when the type cannot carry a default; `None` for a conversion that
/// succeeded and for a chunk of one row and one column.
pub open spec fn typed_default_error(
    name: Seq<char>,
    default: Seq<char>,
    sql_type: Seq<char>,
    c: DefaultConversion,
) -> Option<Seq<char>> {
    match c {
        DefaultConversion::Failed(detail) => Some(
            default_context_message(name, default, sql_type, detail@),
        ),
        DefaultConversion::NoRows => Some(
            default_context_message(name, default, sql_type, "the conversion returned no rows"@),
        ),
        DefaultConversion::Shape(rows, columns) => if rows == 1 && columns == 1 {
            None
        } else {
            Some(
                default_context_message(
                    name,
                    default,
                    sql_type,
                    "the conversion returned an unexpected shape"@,
                ),
            )
        },
        DefaultConversion::Null => Some(
            "config option '"@ + name + "': default value "@ + quoted(default)
                + " cannot be cast to "@ + sql_type,
        ),
        DefaultConversion::Unsupported => Some(
            "config option '"@ + name + "': a default value of type "@ + sql_type
                + " is not supported; the C API cannot build one without a cast that may abort the process. Use a VARCHAR option and parse it yourself."@,
        ),
        DefaultConversion::Converted => None,
    }
}

fn default_context_error(name: &str, default: &str, sql_type: &str, detail: &str) -> (e: ExtensionError)
    ensures
        e@ == default_context_message(name@, default@, sql_type@, detail@),
{
    let mut m = String::new();
    push_str(&mut m, "config option '");
    push_str(&mut m, name);
    push_str(&mut m, "': cannot convert default value ");
    let q = debug_quoted(default);
    push_str(&mut m, q.as_str());
    push_str(&mut m, " to ");
    push_str(&mut m, sql_type);
    push_str(&mut m, ": ");
    push_str(&mut m, detail);
    ExtensionError::from_string(m)
}

/// Decides a step of converting the default value `default` of option
/// `name` to its type `sql_type`, from what that step gave.
pub fn typed_default_verdict(name: &str, default: &str, sql_type: &str, c: &DefaultConversion) -> (r: Result<(), ExtensionError>)
    ensures
        r is Ok <==> typed_default_error(name@, default@, sql_type@, *c) is None,
        r matches Err(e) ==> typed_default_error(name@, default@, sql_type@, *c) == Some(e@),
{
    match c {
        DefaultConversion::Failed(detail) => Err(
            default_context_error(name, default, sql_type, detail.as_str()),
        ),
        DefaultConversion::NoRows => Err(
            default_context_error(name, default, sql_type, "the conversion returned no rows"),
        ),
        DefaultConversion::Shape(rows, columns) => {
            if *rows == 1 && *columns == 1 {
                Ok(())
            } else {
                Err(
                    default_context_error(
                        name,
                        default,
                        sql_type,
                        "the conversion returned an unexpected shape",
                    ),
                )
            }
        },
        DefaultConversion::Null => {
            let mut m = String::new();
            push_str(&mut m, "config option '");
            push_str(&mut m, name);
            push_str(&mut m, "': default value ");
            let q = debug_quoted(default);
            push_str(&mut m, q.as_str());
            push_str(&mut m, " cannot be cast to ");
            push_str(&mut m, sql_type);
            Err(ExtensionError::from_string(m))
        },
        DefaultConversion::Unsupported => {
            let mut m = String::new();
            push_str(&mut m, "config option '");
            push_str(&mut m, name);
            push_str(&mut m, "': a default value of type ");
            push_str(&mut m, sql_type);
            push_str(
                &mut m,
                " is not supported; the C API cannot build one without a cast that may abort the process. Use a VARCHAR option and parse it yourself.",
            );
            Err(ExtensionError::from_string(m))
        },
        DefaultConversion::Converted => Ok(()),
    }
}

} // verus!
