//! The error type used for extension initialization and registration.

use vstd::prelude::*;

use crate::text::{push_char, str_chars};

verus! {

/// An error that can occur during `DuckDB` extension initialization or
/// registration. It carries a human-readable message, which is what is
/// reported back to `DuckDB`.
#[derive(Debug, Clone, PartialEq, Eq)]
pub struct ExtensionError {
    message: String,
}

impl View for ExtensionError {
    type V = Seq<char>;

    /// The error's message.
    closed spec fn view(&self) -> Seq<char> {
        self.message@
    }
}

impl ExtensionError {
    /// Creates a new `ExtensionError` with the given message.
    pub fn new(message: &str) -> (e: Self)
        ensures
            e@ == message@,
    {
        ExtensionError { message: message.to_owned() }
    }

    /// Creates an `ExtensionError` that owns `message`.
    pub fn from_string(message: String) -> (e: Self)
        ensures
            e@ == message@,
    {
        ExtensionError { message }
    }

    /// Wraps any error, keeping the text its `Display` implementation writes.
    /// Every `std::error::Error` is `Display`, and `Display` is all that is
    /// read of it.
    pub fn from_error<E: core::fmt::Display>(e: E) -> (r: Self)
        ensures
            exists|s: String| vstd::string::to_string_from_display_ensures::<E>(&e, s) && r@ == s@,
    {
        let message = e.to_string();
        let ghost witness = message;
        let r = ExtensionError { message };
        assert(vstd::string::to_string_from_display_ensures::<E>(&e, witness) && r@ == witness@);
        r
    }

    /// Returns the error message as a string slice.
    pub fn as_str(&self) -> (s: &str)
        ensures
            s@ == self@,
    {
        self.message.as_str()
    }

    /// Returns the error message as an owned string (what `Display` shows).
    pub fn to_string(&self) -> (s: String)
        ensures
            s@ == self@,
    {
        self.message.clone()
    }
}

impl From<&str> for ExtensionError {
    fn from(s: &str) -> (e: Self)
        ensures
            e@ == s@,
    {
        ExtensionError::new(s)
    }
}

impl vstd::std_specs::convert::FromSpecImpl<&str> for ExtensionError {
    open spec fn obeys_from_spec() -> bool {
        false
    }

    open spec fn from_spec(v: &str) -> Self {
        vstd::pervasive::arbitrary()
    }
}

impl vstd::std_specs::convert::FromSpecImpl<String> for ExtensionError {
    open spec fn obeys_from_spec() -> bool {
        true
    }

    closed spec fn from_spec(v: String) -> Self {
        ExtensionError { message: v }
    }
}

impl From<String> for ExtensionError {
    fn from(s: String) -> (e: Self)
        ensures
            e@ == s@,
    {
        ExtensionError { message: s }
    }
}

/// `std::io::Error`, so that I/O failures convert into an [`ExtensionError`].
#[verifier::external_type_specification]
#[verifier::external_body]
pub struct ExIoError(std::io::Error);

/// `std::fmt::Error`, so that formatting failures convert into an
/// [`ExtensionError`].
#[verifier::external_type_specification]
#[verifier::external_body]
pub struct ExFmtError(std::fmt::Error);

impl vstd::std_specs::convert::FromSpecImpl<std::io::Error> for ExtensionError {
    open spec fn obeys_from_spec() -> bool {
        false
    }

    open spec fn from_spec(v: std::io::Error) -> Self {
        vstd::pervasive::arbitrary()
    }
}

impl From<std::io::Error> for ExtensionError {
    fn from(e: std::io::Error) -> (r: Self)
        ensures
            exists|s: String| vstd::string::to_string_from_display_ensures::<std::io::Error>(&e, s) && r@ == s@,
    {
        ExtensionError::from_error(e)
    }
}

impl vstd::std_specs::convert::FromSpecImpl<std::fmt::Error> for ExtensionError {
    open spec fn obeys_from_spec() -> bool {
        false
    }

    open spec fn from_spec(v: std::fmt::Error) -> Self {
        vstd::pervasive::arbitrary()
    }
}

impl From<std::fmt::Error> for ExtensionError {
    fn from(e: std::fmt::Error) -> (r: Self)
        ensures
            exists|s: String| vstd::string::to_string_from_display_ensures::<std::fmt::Error>(&e, s) && r@ == s@,
    {
        ExtensionError::from_error(e)
    }
}

/// Convenience type alias for `Result<T, ExtensionError>`.
pub type ExtResult<T> = Result<T, ExtensionError>;

/// What `DuckDB` is told when a registration fails and the C API gives no
/// reason.
pub const REGISTRATION_FAILURE_HINT: &'static str = "the C API reports no reason. The usual cause is a name DuckDB will not merge: an aggregate cannot reuse any existing function or macro name (including its own earlier registration, e.g. on a retried LOAD), and a scalar cannot take an aggregate's or a macro's name (the built-in `list_sum` is a macro) \u{2014} check `SELECT function_name, function_type FROM duckdb_functions() WHERE function_name = '<name>'`. Otherwise a parameter or return type is invalid, or a required callback was never set.";

/// `s` with every NUL replaced by `?`: the text of a C string made from it,
/// which keeps the rest of the message instead of stopping at the NUL.
pub open spec fn nul_replaced(s: Seq<char>) -> Seq<char> {
    Seq::new(s.len(), |i: int| if s[i] == '\0' { '?' } else { s[i] })
}

/// The C string carries the whole message: as many characters, each kept
/// but the NULs, and no NUL left to cut it short.
pub proof fn lemma_c_message_keeps_the_message(s: Seq<char>)
    ensures
        nul_replaced(s).len() == s.len(),
        !nul_replaced(s).contains('\0'),
        forall|i: int| 0 <= i < s.len() && s[i] != '\0' ==> nul_replaced(s)[i] == s[i],
{
    assert forall|i: int| 0 <= i < nul_replaced(s).len() implies nul_replaced(s)[i] != '\0' by {
    }
}

impl ExtensionError {
    /// The text of the C string handed to `DuckDB` for this error: the
    /// message with each interior NUL replaced by `?`.
    pub fn to_c_string(&self) -> (s: String)
        ensures
            s@ == nul_replaced(self@),
    {
        let chars = str_chars(self.message.as_str());
        let mut s = String::new();
        let mut i: usize = 0;
        while i < chars.len()
            invariant
                i <= chars@.len(),
                chars@ == self@,
                s@ == nul_replaced(self@).take(i as int),
            decreases chars@.len() - i,
        {
            let c = chars[i];
            if c == '\0' {
                push_char(&mut s, '?');
            } else {
                push_char(&mut s, c);
            }
            assert(nul_replaced(self@).take(i as int).push(nul_replaced(self@)[i as int])
                =~= nul_replaced(self@).take(i + 1));
            i = i + 1;
        }
        assert(nul_replaced(self@).take(i as int) =~= nul_replaced(self@));
        s
    }
}

/// Refuses a string that cannot become a C string: one with an interior NUL
/// is an error with `message`.
pub fn check_no_interior_nul(s: &str, message: &str) -> (r: Result<(), ExtensionError>)
    ensures
        r is Err <==> s@.contains('\0'),
        r matches Err(e) ==> e@ == message@,
{
    let chars = str_chars(s);
    let mut i: usize = 0;
    while i < chars.len()
        invariant
            i <= chars@.len(),
            chars@ == s@,
            forall|j: int| 0 <= j < i ==> chars@[j] != '\0',
        decreases chars@.len() - i,
    {
        if chars[i] == '\0' {
            assert(s@[i as int] == '\0');
            return Err(ExtensionError::new(message));
        }
        i = i + 1;
    }
    Ok(())
}

} // verus!
