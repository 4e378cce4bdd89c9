//! The failure of the native macOS notification backend.

use vstd::prelude::*;

verus! {

/// A failure that the native macOS backend reported, held as the text that
/// the backend gave for it.
#[derive(Debug)]
pub struct MacOsError {
    text: String,
}

impl View for MacOsError {
    type V = Seq<char>;

    closed spec fn view(&self) -> Seq<char> {
        self.text@
    }
}

impl MacOsError {
    /// Holds the text that the backend gave for its failure.
    pub fn new(text: String) -> (e: MacOsError)
        ensures
            e@ == text@,
    {
        MacOsError { text }
    }

    /// The text that the backend gave.
    pub fn to_string(&self) -> (s: String)
        ensures
            s@ == self@,
    {
        self.text.clone()
    }
}

} // verus!
