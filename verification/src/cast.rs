//! Whether a cast function runs as a regular `CAST` or a `TRY_CAST`.

use vstd::prelude::*;

use crate::error::ExtensionError;

verus! {

/// Whether the cast is called as a regular `CAST` or a `TRY_CAST`.
///
/// In `Try` mode, conversion failures should write `NULL` for the failed row
/// and report a per-row error rather than aborting the whole query.
#[derive(Debug, Clone, Copy, PartialEq, Eq, Structural, Hash)]
pub enum CastMode {
    /// Regular `CAST`: any failure aborts the query.
    Normal,
    /// `TRY_CAST`: failures produce `NULL`; use per-row error reporting.
    Try,
}

impl CastMode {
    /// The mode of a `duckdb_cast_mode`: `DUCKDB_CAST_TRY` (1) is `Try`,
    /// every other value `Normal`.
    pub fn from_raw(raw: u32) -> (m: Self)
        ensures
            m == (if raw == 1 { CastMode::Try } else { CastMode::Normal }),
    {
        if raw == 1 {
            CastMode::Try
        } else {
            CastMode::Normal
        }
    }
}

/// Why a cast function builder cannot be registered, from which of its
/// parts are set: the callback, the source type and the target type (each
/// as a type id or a full logical type), checked in that order.
pub open spec fn cast_parts_error(function_set: bool, source_set: bool, target_set: bool) -> Option<Seq<char>> {
    if !function_set {
        Some("cast function callback not set"@)
    } else if !source_set {
        Some("cast source type not set"@)
    } else if !target_set {
        Some("cast target type not set"@)
    } else {
        None
    }
}

/// The checks on a cast function builder that need no `DuckDB` call.
pub fn check_cast_parts(function_set: bool, source_set: bool, target_set: bool) -> (r: Result<(), ExtensionError>)
    ensures
        r is Ok <==> cast_parts_error(function_set, source_set, target_set) is None,
        r matches Err(e) ==> cast_parts_error(function_set, source_set, target_set) == Some(e@),
{
    if !function_set {
        return Err(ExtensionError::new("cast function callback not set"));
    }
    if !source_set {
        return Err(ExtensionError::new("cast source type not set"));
    }
    if !target_set {
        return Err(ExtensionError::new("cast target type not set"));
    }
    Ok(())
}

/// The message for a cast registered on a null connection.
pub open spec fn null_connection_message() -> Seq<char> {
    "cast function registration: connection is null"@
}

/// Refuses to register a cast on a null connection, before any `DuckDB`
/// handle is created.
pub fn check_cast_connection(connection_present: bool) -> (r: Result<(), ExtensionError>)
    ensures
        r is Ok <==> connection_present,
        r matches Err(e) ==> e@ == null_connection_message(),
{
    if !connection_present {
        return Err(ExtensionError::new("cast function registration: connection is null"));
    }
    Ok(())
}

} // verus!
