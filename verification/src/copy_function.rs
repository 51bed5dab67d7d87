//! The checks a custom `COPY` format goes through before it is registered:
//! which callbacks it has, and whether its name is already taken.

use vstd::prelude::*;

use crate::error::ExtensionError;
use crate::error_data::{variant_name, DuckDbErrorType};
use crate::text::{push_char, push_str, str_chars};

verus! {

/// The message for a format that implements `COPY ... TO` only partly.
pub open spec fn partial_writer_message() -> Seq<char> {
    "copy function implements COPY ... TO only partially: bind, sink and finalize must all be set. Leave all three unset for a read-only format that supports COPY ... FROM alone."@
}

/// The message for a format with no callback at all.
pub open spec fn nothing_implemented_message() -> Seq<char> {
    "copy function implements nothing: set bind, sink and finalize for COPY ... TO, or copy_from for COPY ... FROM, or both"@
}

/// Why a copy function with these callbacks set cannot be registered: the
/// writer needs all of bind, sink and finalize or none of them, and at least
/// one direction must be implemented.
pub open spec fn copy_parts_error(bind: bool, sink: bool, finalize: bool, copy_from: bool) -> Option<Seq<char>> {
    if (bind && sink && finalize) || (!bind && !sink && !finalize && copy_from) {
        None
    } else if copy_from {
        Some(partial_writer_message())
    } else {
        Some(nothing_implemented_message())
    }
}

/// The checks on a copy function builder that need no `DuckDB` call.
pub fn check_copy_parts(bind: bool, sink: bool, finalize: bool, copy_from: bool) -> (r: Result<(), ExtensionError>)
    ensures
        r is Ok <==> copy_parts_error(bind, sink, finalize, copy_from) is None,
        r matches Err(e) ==> copy_parts_error(bind, sink, finalize, copy_from) == Some(e@),
{
    if (bind && sink && finalize) || (!bind && !sink && !finalize && copy_from) {
        Ok(())
    } else if copy_from {
        Err(
            ExtensionError::new(
                "copy function implements COPY ... TO only partially: bind, sink and finalize must all be set. Leave all three unset for a read-only format that supports COPY ... FROM alone.",
            ),
        )
    } else {
        Err(
            ExtensionError::new(
                "copy function implements nothing: set bind, sink and finalize for COPY ... TO, or copy_from for COPY ... FROM, or both",
            ),
        )
    }
}

/// `s` as the body of a SQL string literal: every `'` doubled.
pub open spec fn sql_escaped(s: Seq<char>) -> Seq<char>
    decreases s.len(),
{
    if s.len() == 0 {
        s
    } else {
        sql_escaped(s.drop_last()) + (if s.last() == '\'' {
            seq!['\'', '\'']
        } else {
            seq![s.last()]
        })
    }
}

/// The statement that asks `DuckDB` whether a `COPY` format named `name`
/// exists: it names a column that cannot exist, so binding always fails,
/// after the format lookup.
pub open spec fn spec_format_probe_sql(name: Seq<char>) -> Seq<char> {
    "COPY (SELECT \"quack_rs_format_probe_no_such_column\") TO '' (FORMAT '"@ + sql_escaped(name)
        + "')"@
}

/// The statement that probes whether the `COPY` format `name` is taken.
pub fn format_probe_sql(name: &str) -> (s: String)
    ensures
        s@ == spec_format_probe_sql(name@),
{
    let chars = str_chars(name);
    let mut s = String::new();
    push_str(&mut s, "COPY (SELECT \"quack_rs_format_probe_no_such_column\") TO '' (FORMAT '");
    let ghost head = s@;
    let mut i: usize = 0;
    assert(chars@.take(0) =~= Seq::<char>::empty());
    while i < chars.len()
        invariant
            i <= chars@.len(),
            chars@ == name@,
            s@ == head + sql_escaped(chars@.take(i as int)),
        decreases chars@.len() - i,
    {
        let c = chars[i];
        assert(chars@.take(i + 1).drop_last() =~= chars@.take(i as int));
        assert(chars@.take(i + 1).last() == c);
        if c == '\'' {
            push_char(&mut s, '\'');
            push_char(&mut s, '\'');
        } else {
            push_char(&mut s, c);
        }
        i = i + 1;
    }
    assert(chars@.take(i as int) =~= name@);
    push_str(&mut s, "')");
    s
}

/// How `Debug` prints the probe's outcome: `None`, or `Some(` and the
/// category's name and `)`.
pub open spec fn probe_outcome_text(outcome: Option<DuckDbErrorType>) -> Seq<char> {
    match outcome {
        None => "None"@,
        Some(t) => "Some("@ + variant_name(t) + ")"@,
    }
}

/// What the probe's outcome says about the name `name`: a binder error
/// means the format exists; a catalog, autoload or missing-extension error
/// that it does not; anything else that the check could not be made.
pub open spec fn probe_error(name: Seq<char>, outcome: Option<DuckDbErrorType>) -> Option<Seq<char>> {
    match outcome {
        Some(DuckDbErrorType::Binder) => Some(
            "copy function '"@ + name
                + "' already exists (a built-in format, another extension's, or an earlier registration). DuckDB would drop this registration and still report success, leaving the existing format in charge. Choose a different name."@,
        ),
        Some(DuckDbErrorType::Catalog) => None,
        Some(DuckDbErrorType::Autoload) => None,
        Some(DuckDbErrorType::MissingExtension) => None,
        _ => Some(
            "copy function '"@ + name
                + "': cannot check whether the format name is taken (the probe returned "@
                + probe_outcome_text(outcome) + ", not a binder or catalog error)"@,
        ),
    }
}

/// Refuses a `COPY` format name that is already taken, given the error
/// category the probe statement failed with (`None` if it succeeded).
/// `DuckDB` would otherwise drop the registration and report success.
pub fn format_probe_verdict(name: &str, outcome: Option<DuckDbErrorType>) -> (r: Result<(), ExtensionError>)
    ensures
        r is Ok <==> probe_error(name@, outcome) is None,
        r matches Err(e) ==> probe_error(name@, outcome) == Some(e@),
{
    match outcome {
        Some(DuckDbErrorType::Binder) => {
            let mut m = String::new();
            push_str(&mut m, "copy function '");
            push_str(&mut m, name);
            push_str(
                &mut m,
                "' already exists (a built-in format, another extension's, or an earlier registration). DuckDB would drop this registration and still report success, leaving the existing format in charge. Choose a different name.",
            );
            Err(ExtensionError::from_string(m))
        },
        Some(DuckDbErrorType::Catalog) => Ok(()),
        Some(DuckDbErrorType::Autoload) => Ok(()),
        Some(DuckDbErrorType::MissingExtension) => Ok(()),
        _ => {
            let mut m = String::new();
            push_str(&mut m, "copy function '");
            push_str(&mut m, name);
            push_str(&mut m, "': cannot check whether the format name is taken (the probe returned ");
            match outcome {
                None => {
                    push_str(&mut m, "None");
                },
                Some(t) => {
                    push_str(&mut m, "Some(");
                    push_str(&mut m, t.debug_name());
                    push_str(&mut m, ")");
                },
            }
            push_str(&mut m, ", not a binder or catalog error)");
            Err(ExtensionError::from_string(m))
        },
    }
}

} // verus!
