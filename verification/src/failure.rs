use vstd::prelude::*;

verus! {

/// Why an invocation failed.
#[derive(Debug, Clone, Copy, PartialEq, Eq, Structural)]
pub enum Failure {
    /// The preprocessor does not work with the renderer that was asked about.
    UnsupportedRenderer,
    /// The input was not the JSON of a context and a book, or the processed
    /// book could not be written as JSON.
    Format,
}

} // verus!
