//! The library's generic error value: a single user-facing detail string,
//! keyed by the caller and formatted at the presentation boundary.
use vstd::prelude::*;

verus! {

/// A generic library error carrying one detail string.
#[derive(Debug)]
pub struct Error {
    details: String,
}

impl View for Error {
    type V = Seq<char>;

    closed spec fn view(&self) -> Seq<char> {
        self.details@
    }
}

impl Error {
    /// Wraps the given message key as an error; the surrounding
    /// presentation layer turns the key into localized display text.
    pub fn new(key: &str) -> (e: Error)
        ensures
            e@ == key@,
    {
        Error { details: String::from_str(key) }
    }

    /// The detail string this error carries.
    pub fn details(&self) -> (r: String)
        ensures
            r@ == self@,
    {
        self.details.clone()
    }
}

} // verus!
