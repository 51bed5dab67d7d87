//! How the builders describe an optional callback when they are printed.

use vstd::prelude::*;

verus! {

/// Whether a builder has been given an optional callback before it
/// registers: what a reader wants to know, not the function's address.
/// [`label`](Callback::label) gives the text the builders print for it,
/// `set` or `unset`; the derived `Debug` prints the struct itself.
#[derive(Debug, Clone, Copy, PartialEq, Eq, Structural)]
pub struct Callback(pub bool);

impl Callback {
    /// `set` when the builder field holds a callback.
    pub fn of<T>(option: &Option<T>) -> (c: Self)
        ensures
            c.0 == option is Some,
    {
        Callback(option.is_some())
    }

    /// The text the builders print: `set` or `unset`.
    pub fn label(&self) -> (s: &'static str)
        ensures
            s@ == (if self.0 { "set"@ } else { "unset"@ }),
    {
        if self.0 {
            "set"
        } else {
            "unset"
        }
    }
}

} // verus!
