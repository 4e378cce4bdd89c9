//! The failure to read or convert an icon image.

use vstd::prelude::*;

verus! {

/// A failure to decode or encode an icon image, held as the text that
/// describes it.
#[derive(Debug)]
pub struct ImageError {
    text: String,
}

impl View for ImageError {
    type V = Seq<char>;

    closed spec fn view(&self) -> Seq<char> {
        self.text@
    }
}

impl ImageError {
    /// Holds the text that describes the failure.
    pub fn new(text: String) -> (e: ImageError)
        ensures
            e@ == text@,
    {
        ImageError { text }
    }

    /// The text that describes the failure.
    pub fn to_string(&self) -> (s: String)
        ensures
            s@ == self@,
    {
        self.text.clone()
    }
}

} // verus!
