//! The error type raised for invalid caller-supplied parameters.

use vstd::prelude::*;

verus! {

/// A validation error carrying a human-readable message.
///
/// Its view is the message text, so contracts can pin the exact wording
/// returned for each rejected input.
#[derive(Debug, Clone, PartialEq)]
pub struct ValueError {
    message: String,
}

impl View for ValueError {
    type V = Seq<char>;

    closed spec fn view(&self) -> Seq<char> {
        self.message@
    }
}

impl ValueError {
    /// Constructor.
    pub fn new(message: &str) -> (e: ValueError)
        ensures
            e@ == message@,
    {
        ValueError { message: String::from_str(message) }
    }

    /// The message text.
    pub fn message(&self) -> (m: &str)
        ensures
            m@ == self@,
    {
        self.message.as_str()
    }
}

} // verus!
