use vstd::prelude::*;

verus! {

/// What an accessor reports when it cannot hand back the requested field.
#[derive(Debug, PartialEq, Eq)]
pub enum ToonifyError {
    /// The service reported a failure, or a local file was missing;
    /// the payload is the reported text.
    Error(String),
    /// The response carried no such field; the payload is the literal
    /// placeholder text `null`.
    Null(String),
}

} // verus!
