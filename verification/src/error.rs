//! The library's error.

use vstd::prelude::*;

verus! {

/// What was wrong with a value that the library refused.
#[derive(Clone, Debug)]
pub struct Error {
    pub message: String,
}

impl Error {
    /// The error with the given message.
    pub fn new(message: &str) -> (e: Error)
        ensures
            e.message@ == message@,
    {
        Error { message: String::from_str(message) }
    }
}

} // verus!
