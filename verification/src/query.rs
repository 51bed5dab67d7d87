//! Running SQL from an extension: what kind of outcome a statement produced,
//! how a result is read to its end, and the checks on bound parameters.

use vstd::prelude::*;

use crate::error::{check_no_interior_nul, ExtensionError};
use crate::text::{i64_decimal, push_str, signed_decimal, u64_decimal, decimal};

verus! {

/// What kind of outcome a statement produced, mirroring
/// `duckdb_result_type`. A `SELECT` yields `Rows`; `INSERT` / `UPDATE` /
/// `DELETE` yield `ChangedRows`; `CREATE` / `SET` and friends yield
/// `Nothing`.
#[derive(Debug, Clone, Copy, PartialEq, Eq, Structural, Hash)]
#[non_exhaustive]
pub enum ResultKind {
    /// The statement produced rows.
    Rows,
    /// The statement changed rows.
    ChangedRows,
    /// The statement produced neither rows nor row counts.
    Nothing,
    /// `DuckDB` reported `DUCKDB_RESULT_TYPE_INVALID`, or a value this build
    /// does not know.
    Invalid,
}

impl ResultKind {
    /// The kind of a `duckdb_result_type`: 3 is a query result, 1 changed
    /// rows, 2 nothing; every other value is `Invalid`.
    pub fn from_raw(raw: u32) -> (k: Self)
        ensures
            k == (if raw == 3 {
                ResultKind::Rows
            } else if raw == 1 {
                ResultKind::ChangedRows
            } else if raw == 2 {
                ResultKind::Nothing
            } else {
                ResultKind::Invalid
            }),
    {
        if raw == 3 {
            ResultKind::Rows
        } else if raw == 1 {
            ResultKind::ChangedRows
        } else if raw == 2 {
            ResultKind::Nothing
        } else {
            ResultKind::Invalid
        }
    }
}

/// The message for a call `api_func` that failed without recording an
/// error: `DuckDB` caught an exception that is not a `std::exception`.
pub open spec fn spec_no_error_message(api_func: Seq<char>) -> Seq<char> {
    api_func
        + " reported failure without an error message: DuckDB caught an exception that is not a std::exception (its `catch (...)` path), which records nothing"@
}

/// The message for a call `api_func` that failed without recording an
/// error.
pub fn no_error_message(api_func: &str) -> (s: String)
    ensures
        s@ == spec_no_error_message(api_func@),
{
    let mut s = String::new();
    push_str(&mut s, api_func);
    push_str(
        &mut s,
        " reported failure without an error message: DuckDB caught an exception that is not a std::exception (its `catch (...)` path), which records nothing",
    );
    s
}

/// Whether reading a result may still fetch chunks from `DuckDB`.
#[derive(Debug, Clone, PartialEq, Eq)]
pub enum FetchState {
    /// Chunks may still come.
    Open,
    /// The fetch returned nothing and `DuckDB` recorded no error: every row
    /// has been read.
    Ended,
    /// The fetch returned nothing and `DuckDB` recorded this error.
    Failed(String),
}

/// What reading the next chunk does in a given state.
#[derive(Debug, Clone, PartialEq, Eq)]
pub enum FetchStep {
    /// Ask `DuckDB` for the next chunk.
    Fetch,
    /// Report the end of the rows, without calling `DuckDB`.
    End,
    /// Report this error, without calling `DuckDB`.
    Fail(String),
}

/// A state as a value: `None` while open, `Some(None)` once ended,
/// `Some(Some(m))` once failed with `m`.
pub open spec fn state_view(s: FetchState) -> Option<Option<Seq<char>>> {
    match s {
        FetchState::Open => None,
        FetchState::Ended => Some(None),
        FetchState::Failed(m) => Some(Some(m@)),
    }
}

/// A step as a value, in the shape of [`state_view`]: `None` to fetch,
/// `Some(None)` to report the end, `Some(Some(m))` to report `m`.
pub open spec fn step_view(s: FetchStep) -> Option<Option<Seq<char>>> {
    match s {
        FetchStep::Fetch => None,
        FetchStep::End => Some(None),
        FetchStep::Fail(m) => Some(Some(m@)),
    }
}

/// The state after a fetch returned no chunk, given the error `DuckDB`
/// recorded on the result (`None` for a clean end).
pub open spec fn state_after_empty_fetch(error: Option<Seq<char>>) -> Option<Option<Seq<char>>> {
    Some(
        match error {
            None => None,
            Some(m) => Some("the result ended early: fetching the next chunk failed: "@ + m),
        },
    )
}

impl FetchState {
    /// What reading the next chunk does now: fetch while open, otherwise
    /// report the recorded outcome again.
    pub fn next_step(&self) -> (step: FetchStep)
        ensures
            step_view(step) == state_view(*self),
    {
        match self {
            FetchState::Open => FetchStep::Fetch,
            FetchState::Ended => FetchStep::End,
            FetchState::Failed(m) => FetchStep::Fail(m.clone()),
        }
    }

    /// The state after a fetch returned no chunk: `DuckDB` returns none both
    /// at the end of the rows and when fetching fails, recording the failure
    /// on the result.
    pub fn after_empty_fetch(error: Option<String>) -> (s: FetchState)
        ensures
            state_view(s) == state_after_empty_fetch(match error {
                Some(m) => Some(m@),
                None => None,
            }),
    {
        match error {
            None => FetchState::Ended,
            Some(m) => {
                let mut s = String::new();
                push_str(&mut s, "the result ended early: fetching the next chunk failed: ");
                push_str(&mut s, m.as_str());
                FetchState::Failed(s)
            },
        }
    }
}

/// Once a fetch has come back empty, reading never asks `DuckDB` again: the
/// state is no longer open, so every later step reports the same end or
/// error.
pub proof fn lemma_finished_result_never_fetches_again(error: Option<Seq<char>>, s: FetchState)
    requires
        state_view(s) == state_after_empty_fetch(error),
    ensures
        state_view(s) is Some,
        !(s is Open),
{
}

/// The message for a temporal parameter outside the range `DuckDB` can
/// render.
pub open spec fn temporal_message(
    sql_type: Seq<char>,
    v: i64,
    what: Seq<char>,
    index: usize,
    range: Seq<char>,
) -> Seq<char> {
    what + " (parameter "@ + decimal(index as nat) + "): "@ + signed_decimal(v as int)
        + " is outside DuckDB's range for "@ + sql_type + " ("@ + range
        + "); DuckDB would bind it unchecked and then crash, abort or fail every read of it"@
}

/// Refuses a 64-bit temporal payload `v` that is not `in_range` for the
/// type named `sql_type`, before it is bound: `DuckDB` would bind it
/// unchecked. `what` and `range` name the binding method and the range.
pub fn check_temporal(
    sql_type: &str,
    in_range: bool,
    v: i64,
    what: &str,
    index: usize,
    range: &str,
) -> (r: Result<(), ExtensionError>)
    ensures
        r is Ok <==> in_range,
        r matches Err(e) ==> e@ == temporal_message(sql_type@, v, what@, index, range@),
{
    if in_range {
        return Ok(());
    }
    let mut m = String::new();
    push_str(&mut m, what);
    push_str(&mut m, " (parameter ");
    let i = u64_decimal(index as u64);
    push_str(&mut m, i.as_str());
    push_str(&mut m, "): ");
    let n = i64_decimal(v);
    push_str(&mut m, n.as_str());
    push_str(&mut m, " is outside DuckDB's range for ");
    push_str(&mut m, sql_type);
    push_str(&mut m, " (");
    push_str(&mut m, range);
    push_str(
        &mut m,
        "); DuckDB would bind it unchecked and then crash, abort or fail every read of it",
    );
    Err(ExtensionError::from_string(m))
}

/// The text of the C string `sql` is handed to `DuckDB` as: `sql` itself,
/// unless it holds an interior NUL, which a C string cannot carry and which
/// is refused with a message saying so.
pub fn to_c_sql(sql: &str) -> (r: Result<String, ExtensionError>)
    ensures
        r is Ok <==> !sql@.contains('\0'),
        r matches Ok(s) ==> s@ == sql@,
        r matches Err(e) ==> e@ == "SQL text must not contain an interior NUL byte"@,
{
    match check_no_interior_nul(sql, "SQL text must not contain an interior NUL byte") {
        Ok(()) => Ok(sql.to_owned()),
        Err(e) => Err(e),
    }
}

} // verus!
