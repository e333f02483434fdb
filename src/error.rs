use vstd::prelude::*;

verus! {

/// A component declares none of `tag`, `branch` and `version`.
#[derive(Debug, Clone, Copy, PartialEq, Eq, Structural)]
pub struct MissingVersionError {}

impl MissingVersionError {
    /// The error's name, as it is shown to a user.
    pub fn message(&self) -> (r: String)
        ensures
            r@ == "MissingVersionError"@,
    {
        "MissingVersionError".to_owned()
    }
}

/// An upstream response did not have the shape its provider promises.
#[derive(Debug, Clone, Copy, PartialEq, Eq, Structural)]
pub struct ParserError {}

impl ParserError {
    /// The error's name, as it is shown to a user.
    pub fn message(&self) -> (r: String)
        ensures
            r@ == "ParserError"@,
    {
        "ParserError".to_owned()
    }
}

} // verus!
