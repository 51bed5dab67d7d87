//! Categories of `DuckDB` errors, mirroring the C API's `duckdb_error_type`.
//!
//! An extension can branch on the kind of failure (for example telling `IO`
//! from `OutOfMemory`) rather than parsing a message.

use vstd::prelude::*;

use crate::error::ExtensionError;
use crate::text::push_str;

verus! {

/// The category of a `DuckDB` error, mirroring `duckdb_error_type`.
///
/// Unknown or future error categories map to [`DuckDbErrorType::Invalid`].
#[derive(Debug, Clone, Copy, PartialEq, Eq, Structural, Hash)]
#[non_exhaustive]
pub enum DuckDbErrorType {
    /// No specific category / invalid.
    Invalid,
    /// Value out of the representable range.
    OutOfRange,
    /// A type conversion failed.
    Conversion,
    /// An unknown type was encountered.
    UnknownType,
    /// A decimal-specific error.
    Decimal,
    /// A type mismatch.
    MismatchType,
    /// Division by zero.
    DivideByZero,
    /// An object-size error.
    ObjectSize,
    /// An invalid type was supplied.
    InvalidType,
    /// A (de)serialization error.
    Serialization,
    /// A transaction error.
    Transaction,
    /// The requested feature is not implemented.
    NotImplemented,
    /// An error in an expression.
    Expression,
    /// A catalog error (e.g. missing table).
    Catalog,
    /// A parser error.
    Parser,
    /// A planner error.
    Planner,
    /// A scheduler error.
    Scheduler,
    /// An executor error.
    Executor,
    /// A constraint violation.
    Constraint,
    /// An index error.
    Index,
    /// A statistics error.
    Stat,
    /// A connection error.
    Connection,
    /// A syntax error.
    Syntax,
    /// A settings error.
    Settings,
    /// A binder error.
    Binder,
    /// A network error.
    Network,
    /// An optimizer error.
    Optimizer,
    /// A null-pointer error.
    NullPointer,
    /// An I/O error.
    Io,
    /// The query was interrupted.
    Interrupt,
    /// A fatal error — the database is in an unusable state.
    Fatal,
    /// An internal error (a `DuckDB` bug).
    Internal,
    /// Invalid input was supplied.
    InvalidInput,
    /// Out of memory.
    OutOfMemory,
    /// A permission error.
    Permission,
    /// A prepared-statement parameter could not be resolved.
    ParameterNotResolved,
    /// A prepared-statement parameter is not allowed here.
    ParameterNotAllowed,
    /// A dependency error.
    Dependency,
    /// An HTTP error.
    Http,
    /// A required extension is missing.
    MissingExtension,
    /// Autoloading an extension failed.
    Autoload,
    /// A sequence error.
    Sequence,
    /// An invalid configuration was supplied.
    InvalidConfiguration,
}

/// The `duckdb_error_type` code of each category (`DUCKDB_ERROR_*` in the C
/// API): the categories in declaration order carry the codes 0 to 42.
pub open spec fn error_code(t: DuckDbErrorType) -> u32 {
    match t {
        DuckDbErrorType::Invalid => 0,
        DuckDbErrorType::OutOfRange => 1,
        DuckDbErrorType::Conversion => 2,
        DuckDbErrorType::UnknownType => 3,
        DuckDbErrorType::Decimal => 4,
        DuckDbErrorType::MismatchType => 5,
        DuckDbErrorType::DivideByZero => 6,
        DuckDbErrorType::ObjectSize => 7,
        DuckDbErrorType::InvalidType => 8,
        DuckDbErrorType::Serialization => 9,
        DuckDbErrorType::Transaction => 10,
        DuckDbErrorType::NotImplemented => 11,
        DuckDbErrorType::Expression => 12,
        DuckDbErrorType::Catalog => 13,
        DuckDbErrorType::Parser => 14,
        DuckDbErrorType::Planner => 15,
        DuckDbErrorType::Scheduler => 16,
        DuckDbErrorType::Executor => 17,
        DuckDbErrorType::Constraint => 18,
        DuckDbErrorType::Index => 19,
        DuckDbErrorType::Stat => 20,
        DuckDbErrorType::Connection => 21,
        DuckDbErrorType::Syntax => 22,
        DuckDbErrorType::Settings => 23,
        DuckDbErrorType::Binder => 24,
        DuckDbErrorType::Network => 25,
        DuckDbErrorType::Optimizer => 26,
        DuckDbErrorType::NullPointer => 27,
        DuckDbErrorType::Io => 28,
        DuckDbErrorType::Interrupt => 29,
        DuckDbErrorType::Fatal => 30,
        DuckDbErrorType::Internal => 31,
        DuckDbErrorType::InvalidInput => 32,
        DuckDbErrorType::OutOfMemory => 33,
        DuckDbErrorType::Permission => 34,
        DuckDbErrorType::ParameterNotResolved => 35,
        DuckDbErrorType::ParameterNotAllowed => 36,
        DuckDbErrorType::Dependency => 37,
        DuckDbErrorType::Http => 38,
        DuckDbErrorType::MissingExtension => 39,
        DuckDbErrorType::Autoload => 40,
        DuckDbErrorType::Sequence => 41,
        DuckDbErrorType::InvalidConfiguration => 42,
    }
}

/// The largest code a category carries.
pub const MAX_ERROR_CODE: u32 = 42;

/// The short, human-readable label of each category.
pub open spec fn error_label(t: DuckDbErrorType) -> Seq<char> {
    match t {
        DuckDbErrorType::Invalid => "invalid"@,
        DuckDbErrorType::OutOfRange => "out of range"@,
        DuckDbErrorType::Conversion => "conversion"@,
        DuckDbErrorType::UnknownType => "unknown type"@,
        DuckDbErrorType::Decimal => "decimal"@,
        DuckDbErrorType::MismatchType => "type mismatch"@,
        DuckDbErrorType::DivideByZero => "divide by zero"@,
        DuckDbErrorType::ObjectSize => "object size"@,
        DuckDbErrorType::InvalidType => "invalid type"@,
        DuckDbErrorType::Serialization => "serialization"@,
        DuckDbErrorType::Transaction => "transaction"@,
        DuckDbErrorType::NotImplemented => "not implemented"@,
        DuckDbErrorType::Expression => "expression"@,
        DuckDbErrorType::Catalog => "catalog"@,
        DuckDbErrorType::Parser => "parser"@,
        DuckDbErrorType::Planner => "planner"@,
        DuckDbErrorType::Scheduler => "scheduler"@,
        DuckDbErrorType::Executor => "executor"@,
        DuckDbErrorType::Constraint => "constraint"@,
        DuckDbErrorType::Index => "index"@,
        DuckDbErrorType::Stat => "statistics"@,
        DuckDbErrorType::Connection => "connection"@,
        DuckDbErrorType::Syntax => "syntax"@,
        DuckDbErrorType::Settings => "settings"@,
        DuckDbErrorType::Binder => "binder"@,
        DuckDbErrorType::Network => "network"@,
        DuckDbErrorType::Optimizer => "optimizer"@,
        DuckDbErrorType::NullPointer => "null pointer"@,
        DuckDbErrorType::Io => "I/O"@,
        DuckDbErrorType::Interrupt => "interrupt"@,
        DuckDbErrorType::Fatal => "fatal"@,
        DuckDbErrorType::Internal => "internal"@,
        DuckDbErrorType::InvalidInput => "invalid input"@,
        DuckDbErrorType::OutOfMemory => "out of memory"@,
        DuckDbErrorType::Permission => "permission"@,
        DuckDbErrorType::ParameterNotResolved => "parameter not resolved"@,
        DuckDbErrorType::ParameterNotAllowed => "parameter not allowed"@,
        DuckDbErrorType::Dependency => "dependency"@,
        DuckDbErrorType::Http => "HTTP"@,
        DuckDbErrorType::MissingExtension => "missing extension"@,
        DuckDbErrorType::Autoload => "extension autoloading"@,
        DuckDbErrorType::Sequence => "sequence"@,
        DuckDbErrorType::InvalidConfiguration => "invalid configuration"@,
    }
}

impl DuckDbErrorType {
    /// Converts to the `DuckDB` C API constant.
    pub fn to_raw(self) -> (r: u32)
        ensures
            r == error_code(self),
    {
        match self {
            DuckDbErrorType::Invalid => 0,
            DuckDbErrorType::OutOfRange => 1,
            DuckDbErrorType::Conversion => 2,
            DuckDbErrorType::UnknownType => 3,
            DuckDbErrorType::Decimal => 4,
            DuckDbErrorType::MismatchType => 5,
            DuckDbErrorType::DivideByZero => 6,
            DuckDbErrorType::ObjectSize => 7,
            DuckDbErrorType::InvalidType => 8,
            DuckDbErrorType::Serialization => 9,
            DuckDbErrorType::Transaction => 10,
            DuckDbErrorType::NotImplemented => 11,
            DuckDbErrorType::Expression => 12,
            DuckDbErrorType::Catalog => 13,
            DuckDbErrorType::Parser => 14,
            DuckDbErrorType::Planner => 15,
            DuckDbErrorType::Scheduler => 16,
            DuckDbErrorType::Executor => 17,
            DuckDbErrorType::Constraint => 18,
            DuckDbErrorType::Index => 19,
            DuckDbErrorType::Stat => 20,
            DuckDbErrorType::Connection => 21,
            DuckDbErrorType::Syntax => 22,
            DuckDbErrorType::Settings => 23,
            DuckDbErrorType::Binder => 24,
            DuckDbErrorType::Network => 25,
            DuckDbErrorType::Optimizer => 26,
            DuckDbErrorType::NullPointer => 27,
            DuckDbErrorType::Io => 28,
            DuckDbErrorType::Interrupt => 29,
            DuckDbErrorType::Fatal => 30,
            DuckDbErrorType::Internal => 31,
            DuckDbErrorType::InvalidInput => 32,
            DuckDbErrorType::OutOfMemory => 33,
            DuckDbErrorType::Permission => 34,
            DuckDbErrorType::ParameterNotResolved => 35,
            DuckDbErrorType::ParameterNotAllowed => 36,
            DuckDbErrorType::Dependency => 37,
            DuckDbErrorType::Http => 38,
            DuckDbErrorType::MissingExtension => 39,
            DuckDbErrorType::Autoload => 40,
            DuckDbErrorType::Sequence => 41,
            DuckDbErrorType::InvalidConfiguration => 42,
        }
    }

    /// Converts from the `DuckDB` C API constant. Unknown values map to
    /// [`Invalid`][DuckDbErrorType::Invalid].
    pub fn from_raw(raw: u32) -> (r: Self)
        ensures
            raw <= MAX_ERROR_CODE ==> error_code(r) == raw,
            raw > MAX_ERROR_CODE ==> r == DuckDbErrorType::Invalid,
    {
        match raw {
            1 => DuckDbErrorType::OutOfRange,
            2 => DuckDbErrorType::Conversion,
            3 => DuckDbErrorType::UnknownType,
            4 => DuckDbErrorType::Decimal,
            5 => DuckDbErrorType::MismatchType,
            6 => DuckDbErrorType::DivideByZero,
            7 => DuckDbErrorType::ObjectSize,
            8 => DuckDbErrorType::InvalidType,
            9 => DuckDbErrorType::Serialization,
            10 => DuckDbErrorType::Transaction,
            11 => DuckDbErrorType::NotImplemented,
            12 => DuckDbErrorType::Expression,
            13 => DuckDbErrorType::Catalog,
            14 => DuckDbErrorType::Parser,
            15 => DuckDbErrorType::Planner,
            16 => DuckDbErrorType::Scheduler,
            17 => DuckDbErrorType::Executor,
            18 => DuckDbErrorType::Constraint,
            19 => DuckDbErrorType::Index,
            20 => DuckDbErrorType::Stat,
            21 => DuckDbErrorType::Connection,
            22 => DuckDbErrorType::Syntax,
            23 => DuckDbErrorType::Settings,
            24 => DuckDbErrorType::Binder,
            25 => DuckDbErrorType::Network,
            26 => DuckDbErrorType::Optimizer,
            27 => DuckDbErrorType::NullPointer,
            28 => DuckDbErrorType::Io,
            29 => DuckDbErrorType::Interrupt,
            30 => DuckDbErrorType::Fatal,
            31 => DuckDbErrorType::Internal,
            32 => DuckDbErrorType::InvalidInput,
            33 => DuckDbErrorType::OutOfMemory,
            34 => DuckDbErrorType::Permission,
            35 => DuckDbErrorType::ParameterNotResolved,
            36 => DuckDbErrorType::ParameterNotAllowed,
            37 => DuckDbErrorType::Dependency,
            38 => DuckDbErrorType::Http,
            39 => DuckDbErrorType::MissingExtension,
            40 => DuckDbErrorType::Autoload,
            41 => DuckDbErrorType::Sequence,
            42 => DuckDbErrorType::InvalidConfiguration,
            _ => DuckDbErrorType::Invalid,
        }
    }

    /// Returns a short, human-readable label for this error category.
    pub fn as_str(self) -> (s: &'static str)
        ensures
            s@ == error_label(self),
    {
        match self {
            DuckDbErrorType::Invalid => "invalid",
            DuckDbErrorType::OutOfRange => "out of range",
            DuckDbErrorType::Conversion => "conversion",
            DuckDbErrorType::UnknownType => "unknown type",
            DuckDbErrorType::Decimal => "decimal",
            DuckDbErrorType::MismatchType => "type mismatch",
            DuckDbErrorType::DivideByZero => "divide by zero",
            DuckDbErrorType::ObjectSize => "object size",
            DuckDbErrorType::InvalidType => "invalid type",
            DuckDbErrorType::Serialization => "serialization",
            DuckDbErrorType::Transaction => "transaction",
            DuckDbErrorType::NotImplemented => "not implemented",
            DuckDbErrorType::Expression => "expression",
            DuckDbErrorType::Catalog => "catalog",
            DuckDbErrorType::Parser => "parser",
            DuckDbErrorType::Planner => "planner",
            DuckDbErrorType::Scheduler => "scheduler",
            DuckDbErrorType::Executor => "executor",
            DuckDbErrorType::Constraint => "constraint",
            DuckDbErrorType::Index => "index",
            DuckDbErrorType::Stat => "statistics",
            DuckDbErrorType::Connection => "connection",
            DuckDbErrorType::Syntax => "syntax",
            DuckDbErrorType::Settings => "settings",
            DuckDbErrorType::Binder => "binder",
            DuckDbErrorType::Network => "network",
            DuckDbErrorType::Optimizer => "optimizer",
            DuckDbErrorType::NullPointer => "null pointer",
            DuckDbErrorType::Io => "I/O",
            DuckDbErrorType::Interrupt => "interrupt",
            DuckDbErrorType::Fatal => "fatal",
            DuckDbErrorType::Internal => "internal",
            DuckDbErrorType::InvalidInput => "invalid input",
            DuckDbErrorType::OutOfMemory => "out of memory",
            DuckDbErrorType::Permission => "permission",
            DuckDbErrorType::ParameterNotResolved => "parameter not resolved",
            DuckDbErrorType::ParameterNotAllowed => "parameter not allowed",
            DuckDbErrorType::Dependency => "dependency",
            DuckDbErrorType::Http => "HTTP",
            DuckDbErrorType::MissingExtension => "missing extension",
            DuckDbErrorType::Autoload => "extension autoloading",
            DuckDbErrorType::Sequence => "sequence",
            DuckDbErrorType::InvalidConfiguration => "invalid configuration",
        }
    }

    /// The label as an owned string (what `Display` would show).
    pub fn to_string(self) -> (s: String)
        ensures
            s@ == error_label(self),
    {
        self.as_str().to_owned()
    }
}

/// Converting a category to its code and back gives the category again.
pub proof fn lemma_error_type_round_trip(t: DuckDbErrorType)
    ensures
        error_code(t) <= MAX_ERROR_CODE,
        forall|u: DuckDbErrorType| error_code(u) == error_code(t) ==> u == t,
{
}

/// The name `Debug` prints for each category: the variant's identifier.
pub open spec fn variant_name(t: DuckDbErrorType) -> Seq<char> {
    match t {
        DuckDbErrorType::Invalid => "Invalid"@,
        DuckDbErrorType::OutOfRange => "OutOfRange"@,
        DuckDbErrorType::Conversion => "Conversion"@,
        DuckDbErrorType::UnknownType => "UnknownType"@,
        DuckDbErrorType::Decimal => "Decimal"@,
        DuckDbErrorType::MismatchType => "MismatchType"@,
        DuckDbErrorType::DivideByZero => "DivideByZero"@,
        DuckDbErrorType::ObjectSize => "ObjectSize"@,
        DuckDbErrorType::InvalidType => "InvalidType"@,
        DuckDbErrorType::Serialization => "Serialization"@,
        DuckDbErrorType::Transaction => "Transaction"@,
        DuckDbErrorType::NotImplemented => "NotImplemented"@,
        DuckDbErrorType::Expression => "Expression"@,
        DuckDbErrorType::Catalog => "Catalog"@,
        DuckDbErrorType::Parser => "Parser"@,
        DuckDbErrorType::Planner => "Planner"@,
        DuckDbErrorType::Scheduler => "Scheduler"@,
        DuckDbErrorType::Executor => "Executor"@,
        DuckDbErrorType::Constraint => "Constraint"@,
        DuckDbErrorType::Index => "Index"@,
        DuckDbErrorType::Stat => "Stat"@,
        DuckDbErrorType::Connection => "Connection"@,
        DuckDbErrorType::Syntax => "Syntax"@,
        DuckDbErrorType::Settings => "Settings"@,
        DuckDbErrorType::Binder => "Binder"@,
        DuckDbErrorType::Network => "Network"@,
        DuckDbErrorType::Optimizer => "Optimizer"@,
        DuckDbErrorType::NullPointer => "NullPointer"@,
        DuckDbErrorType::Io => "Io"@,
        DuckDbErrorType::Interrupt => "Interrupt"@,
        DuckDbErrorType::Fatal => "Fatal"@,
        DuckDbErrorType::Internal => "Internal"@,
        DuckDbErrorType::InvalidInput => "InvalidInput"@,
        DuckDbErrorType::OutOfMemory => "OutOfMemory"@,
        DuckDbErrorType::Permission => "Permission"@,
        DuckDbErrorType::ParameterNotResolved => "ParameterNotResolved"@,
        DuckDbErrorType::ParameterNotAllowed => "ParameterNotAllowed"@,
        DuckDbErrorType::Dependency => "Dependency"@,
        DuckDbErrorType::Http => "Http"@,
        DuckDbErrorType::MissingExtension => "MissingExtension"@,
        DuckDbErrorType::Autoload => "Autoload"@,
        DuckDbErrorType::Sequence => "Sequence"@,
        DuckDbErrorType::InvalidConfiguration => "InvalidConfiguration"@,
    }
}

impl DuckDbErrorType {
    /// The variant's identifier, as `Debug` prints it.
    pub fn debug_name(self) -> (s: &'static str)
        ensures
            s@ == variant_name(self),
    {
        match self {
            DuckDbErrorType::Invalid => "Invalid",
            DuckDbErrorType::OutOfRange => "OutOfRange",
            DuckDbErrorType::Conversion => "Conversion",
            DuckDbErrorType::UnknownType => "UnknownType",
            DuckDbErrorType::Decimal => "Decimal",
            DuckDbErrorType::MismatchType => "MismatchType",
            DuckDbErrorType::DivideByZero => "DivideByZero",
            DuckDbErrorType::ObjectSize => "ObjectSize",
            DuckDbErrorType::InvalidType => "InvalidType",
            DuckDbErrorType::Serialization => "Serialization",
            DuckDbErrorType::Transaction => "Transaction",
            DuckDbErrorType::NotImplemented => "NotImplemented",
            DuckDbErrorType::Expression => "Expression",
            DuckDbErrorType::Catalog => "Catalog",
            DuckDbErrorType::Parser => "Parser",
            DuckDbErrorType::Planner => "Planner",
            DuckDbErrorType::Scheduler => "Scheduler",
            DuckDbErrorType::Executor => "Executor",
            DuckDbErrorType::Constraint => "Constraint",
            DuckDbErrorType::Index => "Index",
            DuckDbErrorType::Stat => "Stat",
            DuckDbErrorType::Connection => "Connection",
            DuckDbErrorType::Syntax => "Syntax",
            DuckDbErrorType::Settings => "Settings",
            DuckDbErrorType::Binder => "Binder",
            DuckDbErrorType::Network => "Network",
            DuckDbErrorType::Optimizer => "Optimizer",
            DuckDbErrorType::NullPointer => "NullPointer",
            DuckDbErrorType::Io => "Io",
            DuckDbErrorType::Interrupt => "Interrupt",
            DuckDbErrorType::Fatal => "Fatal",
            DuckDbErrorType::Internal => "Internal",
            DuckDbErrorType::InvalidInput => "InvalidInput",
            DuckDbErrorType::OutOfMemory => "OutOfMemory",
            DuckDbErrorType::Permission => "Permission",
            DuckDbErrorType::ParameterNotResolved => "ParameterNotResolved",
            DuckDbErrorType::ParameterNotAllowed => "ParameterNotAllowed",
            DuckDbErrorType::Dependency => "Dependency",
            DuckDbErrorType::Http => "Http",
            DuckDbErrorType::MissingExtension => "MissingExtension",
            DuckDbErrorType::Autoload => "Autoload",
            DuckDbErrorType::Sequence => "Sequence",
            DuckDbErrorType::InvalidConfiguration => "InvalidConfiguration",
        }
    }
}

/// The text an error record of category `t` displays: the category's label,
/// followed by `: ` and the message when it has one.
pub open spec fn spec_error_data_text(t: DuckDbErrorType, message: Option<Seq<char>>) -> Seq<char> {
    match message {
        Some(m) => error_label(t) + ": "@ + m,
        None => error_label(t),
    }
}

/// The text an error record displays, given its category and its message
/// (`None` when it has none, or one that is not UTF-8).
pub fn error_data_text(error_type: DuckDbErrorType, message: Option<&str>) -> (s: String)
    ensures
        s@ == spec_error_data_text(error_type, match message {
            Some(m) => Some(m@),
            None => None,
        }),
{
    let mut s = error_type.to_string();
    match message {
        Some(m) => {
            push_str(&mut s, ": ");
            push_str(&mut s, m);
        },
        None => {},
    }
    s
}

/// The error an error record becomes when it is propagated: its message, or
/// `unknown DuckDB error` when it has none.
pub fn error_data_into_extension_error(message: Option<String>) -> (e: ExtensionError)
    ensures
        e@ == (match message {
            Some(m) => m@,
            None => "unknown DuckDB error"@,
        }),
{
    match message {
        Some(m) => ExtensionError::from_string(m),
        None => ExtensionError::new("unknown DuckDB error"),
    }
}

/// The category a label names: each label is told apart from the others
/// of its length by the characters where they differ.
spec fn label_category(s: Seq<char>) -> DuckDbErrorType {
    if s.len() == 3 {
        DuckDbErrorType::Io
    } else if s.len() == 4 {
        DuckDbErrorType::Http
    } else if s.len() == 5 {
        if s[0] == 'f' {
            DuckDbErrorType::Fatal
        } else {
            DuckDbErrorType::Index
        }
    } else if s.len() == 6 {
        if s[0] == 'b' {
            DuckDbErrorType::Binder
        } else if s[0] == 'p' {
            DuckDbErrorType::Parser
        } else {
            DuckDbErrorType::Syntax
        }
    } else if s.len() == 7 {
        if s[0] == 'c' {
            DuckDbErrorType::Catalog
        } else if s[0] == 'd' {
            DuckDbErrorType::Decimal
        } else if s[0] == 'i' {
            DuckDbErrorType::Invalid
        } else if s[0] == 'n' {
            DuckDbErrorType::Network
        } else {
            DuckDbErrorType::Planner
        }
    } else if s.len() == 8 {
        if s[0] == 'e' {
            DuckDbErrorType::Executor
        } else if s[0] == 'i' {
            DuckDbErrorType::Internal
        } else {
            if s[2] == 'q' {
                DuckDbErrorType::Sequence
            } else {
                DuckDbErrorType::Settings
            }
        }
    } else if s.len() == 9 {
        if s[0] == 'i' {
            DuckDbErrorType::Interrupt
        } else if s[0] == 'o' {
            DuckDbErrorType::Optimizer
        } else {
            DuckDbErrorType::Scheduler
        }
    } else if s.len() == 10 {
        if s[0] == 'c' {
            if s[3] == 'n' {
                DuckDbErrorType::Connection
            } else if s[3] == 's' {
                DuckDbErrorType::Constraint
            } else {
                DuckDbErrorType::Conversion
            }
        } else if s[0] == 'd' {
            DuckDbErrorType::Dependency
        } else if s[0] == 'e' {
            DuckDbErrorType::Expression
        } else if s[0] == 'p' {
            DuckDbErrorType::Permission
        } else {
            DuckDbErrorType::Stat
        }
    } else if s.len() == 11 {
        if s[0] == 'o' {
            DuckDbErrorType::ObjectSize
        } else {
            DuckDbErrorType::Transaction
        }
    } else if s.len() == 12 {
        if s[0] == 'i' {
            DuckDbErrorType::InvalidType
        } else if s[0] == 'n' {
            DuckDbErrorType::NullPointer
        } else if s[0] == 'o' {
            DuckDbErrorType::OutOfRange
        } else {
            DuckDbErrorType::UnknownType
        }
    } else if s.len() == 13 {
        if s[0] == 'i' {
            DuckDbErrorType::InvalidInput
        } else if s[0] == 'o' {
            DuckDbErrorType::OutOfMemory
        } else if s[0] == 's' {
            DuckDbErrorType::Serialization
        } else {
            DuckDbErrorType::MismatchType
        }
    } else if s.len() == 14 {
        DuckDbErrorType::DivideByZero
    } else if s.len() == 15 {
        DuckDbErrorType::NotImplemented
    } else if s.len() == 17 {
        DuckDbErrorType::MissingExtension
    } else if s.len() == 21 {
        if s[0] == 'e' {
            DuckDbErrorType::Autoload
        } else if s[0] == 'i' {
            DuckDbErrorType::InvalidConfiguration
        } else {
            DuckDbErrorType::ParameterNotAllowed
        }
    } else if s.len() == 22 {
        DuckDbErrorType::ParameterNotResolved
    } else {
        DuckDbErrorType::Invalid
    }
}

proof fn lemma_label_category(t: DuckDbErrorType)
    ensures
        label_category(error_label(t)) == t,
{
    match t {
        DuckDbErrorType::Invalid => {
            reveal_strlit("invalid");
        },
        DuckDbErrorType::OutOfRange => {
            reveal_strlit("out of range");
        },
        DuckDbErrorType::Conversion => {
            reveal_strlit("conversion");
        },
        DuckDbErrorType::UnknownType => {
            reveal_strlit("unknown type");
        },
        DuckDbErrorType::Decimal => {
            reveal_strlit("decimal");
        },
        DuckDbErrorType::MismatchType => {
            reveal_strlit("type mismatch");
        },
        DuckDbErrorType::DivideByZero => {
            reveal_strlit("divide by zero");
        },
        DuckDbErrorType::ObjectSize => {
            reveal_strlit("object size");
        },
        DuckDbErrorType::InvalidType => {
            reveal_strlit("invalid type");
        },
        DuckDbErrorType::Serialization => {
            reveal_strlit("serialization");
        },
        DuckDbErrorType::Transaction => {
            reveal_strlit("transaction");
        },
        DuckDbErrorType::NotImplemented => {
            reveal_strlit("not implemented");
        },
        DuckDbErrorType::Expression => {
            reveal_strlit("expression");
        },
        DuckDbErrorType::Catalog => {
            reveal_strlit("catalog");
        },
        DuckDbErrorType::Parser => {
            reveal_strlit("parser");
        },
        DuckDbErrorType::Planner => {
            reveal_strlit("planner");
        },
        DuckDbErrorType::Scheduler => {
            reveal_strlit("scheduler");
        },
        DuckDbErrorType::Executor => {
            reveal_strlit("executor");
        },
        DuckDbErrorType::Constraint => {
            reveal_strlit("constraint");
        },
        DuckDbErrorType::Index => {
            reveal_strlit("index");
        },
        DuckDbErrorType::Stat => {
            reveal_strlit("statistics");
        },
        DuckDbErrorType::Connection => {
            reveal_strlit("connection");
        },
        DuckDbErrorType::Syntax => {
            reveal_strlit("syntax");
        },
        DuckDbErrorType::Settings => {
            reveal_strlit("settings");
        },
        DuckDbErrorType::Binder => {
            reveal_strlit("binder");
        },
        DuckDbErrorType::Network => {
            reveal_strlit("network");
        },
        DuckDbErrorType::Optimizer => {
            reveal_strlit("optimizer");
        },
        DuckDbErrorType::NullPointer => {
            reveal_strlit("null pointer");
        },
        DuckDbErrorType::Io => {
            reveal_strlit("I/O");
        },
        DuckDbErrorType::Interrupt => {
            reveal_strlit("interrupt");
        },
        DuckDbErrorType::Fatal => {
            reveal_strlit("fatal");
        },
        DuckDbErrorType::Internal => {
            reveal_strlit("internal");
        },
        DuckDbErrorType::InvalidInput => {
            reveal_strlit("invalid input");
        },
        DuckDbErrorType::OutOfMemory => {
            reveal_strlit("out of memory");
        },
        DuckDbErrorType::Permission => {
            reveal_strlit("permission");
        },
        DuckDbErrorType::ParameterNotResolved => {
            reveal_strlit("parameter not resolved");
        },
        DuckDbErrorType::ParameterNotAllowed => {
            reveal_strlit("parameter not allowed");
        },
        DuckDbErrorType::Dependency => {
            reveal_strlit("dependency");
        },
        DuckDbErrorType::Http => {
            reveal_strlit("HTTP");
        },
        DuckDbErrorType::MissingExtension => {
            reveal_strlit("missing extension");
        },
        DuckDbErrorType::Autoload => {
            reveal_strlit("extension autoloading");
        },
        DuckDbErrorType::Sequence => {
            reveal_strlit("sequence");
        },
        DuckDbErrorType::InvalidConfiguration => {
            reveal_strlit("invalid configuration");
        },
    }
}

/// Distinct categories carry distinct labels, so a label names one
/// category.
pub proof fn lemma_error_labels_distinct(a: DuckDbErrorType, b: DuckDbErrorType)
    ensures
        error_label(a) == error_label(b) ==> a == b,
{
    lemma_label_category(a);
    lemma_label_category(b);
}

/// Each category carries its `DUCKDB_ERROR_*` constant of the C API
/// (`duckdb.h`): `DUCKDB_ERROR_INVALID` = 0 through
/// `DUCKDB_ERROR_INVALID_CONFIGURATION` = 42, so that `to_raw` hands
/// `DuckDB` the code of the category meant and `from_raw` reads a code back
/// as the category `DuckDB` meant.
pub proof fn lemma_error_codes_are_the_c_api_constants()
    ensures
        error_code(DuckDbErrorType::Invalid) == 0,
        error_code(DuckDbErrorType::OutOfRange) == 1,
        error_code(DuckDbErrorType::Conversion) == 2,
        error_code(DuckDbErrorType::UnknownType) == 3,
        error_code(DuckDbErrorType::Decimal) == 4,
        error_code(DuckDbErrorType::MismatchType) == 5,
        error_code(DuckDbErrorType::DivideByZero) == 6,
        error_code(DuckDbErrorType::ObjectSize) == 7,
        error_code(DuckDbErrorType::InvalidType) == 8,
        error_code(DuckDbErrorType::Serialization) == 9,
        error_code(DuckDbErrorType::Transaction) == 10,
        error_code(DuckDbErrorType::NotImplemented) == 11,
        error_code(DuckDbErrorType::Expression) == 12,
        error_code(DuckDbErrorType::Catalog) == 13,
        error_code(DuckDbErrorType::Parser) == 14,
        error_code(DuckDbErrorType::Planner) == 15,
        error_code(DuckDbErrorType::Scheduler) == 16,
        error_code(DuckDbErrorType::Executor) == 17,
        error_code(DuckDbErrorType::Constraint) == 18,
        error_code(DuckDbErrorType::Index) == 19,
        error_code(DuckDbErrorType::Stat) == 20,
        error_code(DuckDbErrorType::Connection) == 21,
        error_code(DuckDbErrorType::Syntax) == 22,
        error_code(DuckDbErrorType::Settings) == 23,
        error_code(DuckDbErrorType::Binder) == 24,
        error_code(DuckDbErrorType::Network) == 25,
        error_code(DuckDbErrorType::Optimizer) == 26,
        error_code(DuckDbErrorType::NullPointer) == 27,
        error_code(DuckDbErrorType::Io) == 28,
        error_code(DuckDbErrorType::Interrupt) == 29,
        error_code(DuckDbErrorType::Fatal) == 30,
        error_code(DuckDbErrorType::Internal) == 31,
        error_code(DuckDbErrorType::InvalidInput) == 32,
        error_code(DuckDbErrorType::OutOfMemory) == 33,
        error_code(DuckDbErrorType::Permission) == 34,
        error_code(DuckDbErrorType::ParameterNotResolved) == 35,
        error_code(DuckDbErrorType::ParameterNotAllowed) == 36,
        error_code(DuckDbErrorType::Dependency) == 37,
        error_code(DuckDbErrorType::Http) == 38,
        error_code(DuckDbErrorType::MissingExtension) == 39,
        error_code(DuckDbErrorType::Autoload) == 40,
        error_code(DuckDbErrorType::Sequence) == 41,
        error_code(DuckDbErrorType::InvalidConfiguration) == 42,
{
}

} // verus!
