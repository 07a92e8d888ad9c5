//! Error type for failures detected at run time.

use vstd::prelude::*;
use vstd::string::StringExecFns;

verus! {

/// An error that carries a description of what went wrong.
#[derive(Debug)]
pub struct RuntimeError {
    description: String,
}

impl View for RuntimeError {
    type V = Seq<char>;

    /// The description, as a sequence of characters.
    closed spec fn view(&self) -> Seq<char> {
        self.description@
    }
}

impl RuntimeError {
    /// Create an error with a given description.
    pub fn new(description: &str) -> (res: RuntimeError)
        ensures
            res@ == description@,
    {
        RuntimeError { description: String::from_str(description) }
    }

    /// Get the description of the error.
    pub fn description(&self) -> (res: &str)
        ensures
            res@ == self@,
    {
        self.description.as_str()
    }
}

} // verus!
