//! The C API layout check an extension runs when it is loaded, and the
//! policy that decides what a failed check means.
//!
//! The stable C extension API is a table of function pointers whose layout
//! grew between `DuckDB` releases. An extension compiled against one layout
//! and loaded into an engine with another calls the wrong functions, so the
//! entry point compares the two before it touches anything past the stable
//! prefix. [`AbiCheck`] is the outcome of that comparison; [`AbiPolicy`] is
//! how strictly the extension treats it.

use vstd::prelude::*;

use crate::text::{decimal, push_str, u64_decimal};

verus! {

/// How an extension treats a failed C API layout check.
#[derive(Debug, Clone, Copy, PartialEq, Eq, Structural, Hash)]
pub enum AbiPolicy {
    /// Refuse to load on any failed check (the default).
    Strict,
    /// Load anyway, printing the diagnostic.
    Warn,
    /// Load on an engine release whose layout is not known, but refuse a
    /// layout that is known to differ.
    AllowUnknownEngine,
    /// Run no check at all.
    Trust,
}

impl Default for AbiPolicy {
    fn default() -> (p: Self)
        ensures
            p == AbiPolicy::Strict,
    {
        AbiPolicy::Strict
    }
}

/// The outcome of comparing the C API layout an extension was compiled
/// against with the one of the engine that loads it.
#[derive(Debug, Clone, PartialEq, Eq)]
pub enum AbiCheck {
    /// The engine's layout has as many slots as the extension was compiled
    /// against.
    Compatible {
        /// The engine release.
        engine_version: String,
        /// The number of function slots both sides agree on.
        slots: usize,
    },
    /// The extension uses only the stable prefix, which every release lays
    /// out alike.
    StableOnly,
    /// The engine lays the table out with a different number of slots.
    LayoutMismatch {
        /// The engine release.
        engine_version: String,
        /// The engine's number of function slots.
        engine_slots: usize,
        /// The number the extension was compiled against.
        compiled_slots: usize,
    },
    /// The engine release is not one whose layout is known.
    UnknownEngineVersion {
        /// The engine release.
        engine_version: String,
        /// The number of slots the extension was compiled against.
        compiled_slots: usize,
    },
    /// The engine did not report its release.
    EngineVersionUnavailable {
        /// The number of slots the extension was compiled against.
        compiled_slots: usize,
    },
    /// The extension declares a release whose layout differs from the one
    /// it was compiled against.
    DeclaredVersionMismatch {
        /// The release the extension declares.
        declared_version: String,
        /// The number of slots of the declared release.
        declared_slots: usize,
        /// The number of slots the extension was compiled against.
        compiled_slots: usize,
    },
}

/// The diagnostic of a failed check, `None` for a passing one.
pub open spec fn spec_error_message(check: AbiCheck) -> Option<Seq<char>> {
    match check {
        AbiCheck::Compatible { .. } => None,
        AbiCheck::StableOnly => None,
        AbiCheck::LayoutMismatch { engine_version, engine_slots, compiled_slots } => Some(
            "DuckDB "@ + engine_version@ + " lays out the C extension API with "@ + decimal(
                engine_slots as nat,
            ) + " function slots, but this extension was compiled against "@ + decimal(
                compiled_slots as nat,
            ) + "; calling into it would reach the wrong functions"@,
        ),
        AbiCheck::UnknownEngineVersion { engine_version, compiled_slots } => Some(
            "DuckDB "@ + engine_version@
                + " is not a release whose C extension API layout this extension knows (it was compiled against "@
                + decimal(compiled_slots as nat) + " function slots), so the layout cannot be checked"@,
        ),
        AbiCheck::EngineVersionUnavailable { compiled_slots } => Some(
            "DuckDB did not report its version, so the C extension API layout this extension was compiled against ("@
                + decimal(compiled_slots as nat) + " function slots) cannot be checked"@,
        ),
        AbiCheck::DeclaredVersionMismatch { declared_version, declared_slots, compiled_slots } => Some(
            "the extension declares DuckDB "@ + declared_version@ + " ("@ + decimal(
                declared_slots as nat,
            ) + " function slots) but was compiled against "@ + decimal(compiled_slots as nat)
                + " function slots"@,
        ),
    }
}

fn push_count(s: &mut String, n: usize)
    ensures
        final(s)@ == old(s)@ + decimal(n as nat),
{
    let d = u64_decimal(n as u64);
    push_str(s, d.as_str());
}

impl AbiCheck {
    /// The diagnostic of a failed check, `None` for a passing one.
    pub fn error_message(&self) -> (m: Option<String>)
        ensures
            m is None <==> spec_error_message(*self) is None,
            m matches Some(s) ==> spec_error_message(*self) == Some(s@),
    {
        match self {
            AbiCheck::Compatible { .. } => None,
            AbiCheck::StableOnly => None,
            AbiCheck::LayoutMismatch { engine_version, engine_slots, compiled_slots } => {
                let mut s = String::new();
                push_str(&mut s, "DuckDB ");
                push_str(&mut s, engine_version.as_str());
                push_str(&mut s, " lays out the C extension API with ");
                push_count(&mut s, *engine_slots);
                push_str(&mut s, " function slots, but this extension was compiled against ");
                push_count(&mut s, *compiled_slots);
                push_str(&mut s, "; calling into it would reach the wrong functions");
                Some(s)
            },
            AbiCheck::UnknownEngineVersion { engine_version, compiled_slots } => {
                let mut s = String::new();
                push_str(&mut s, "DuckDB ");
                push_str(&mut s, engine_version.as_str());
                push_str(
                    &mut s,
                    " is not a release whose C extension API layout this extension knows (it was compiled against ",
                );
                push_count(&mut s, *compiled_slots);
                push_str(&mut s, " function slots), so the layout cannot be checked");
                Some(s)
            },
            AbiCheck::EngineVersionUnavailable { compiled_slots } => {
                let mut s = String::new();
                push_str(
                    &mut s,
                    "DuckDB did not report its version, so the C extension API layout this extension was compiled against (",
                );
                push_count(&mut s, *compiled_slots);
                push_str(&mut s, " function slots) cannot be checked");
                Some(s)
            },
            AbiCheck::DeclaredVersionMismatch { declared_version, declared_slots, compiled_slots } => {
                let mut s = String::new();
                push_str(&mut s, "the extension declares DuckDB ");
                push_str(&mut s, declared_version.as_str());
                push_str(&mut s, " (");
                push_count(&mut s, *declared_slots);
                push_str(&mut s, " function slots) but was compiled against ");
                push_count(&mut s, *compiled_slots);
                push_str(&mut s, " function slots");
                Some(s)
            },
        }
    }
}

} // verus!
