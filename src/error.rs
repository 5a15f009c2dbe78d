//! The ways a command can fail.
use vstd::prelude::*;

verus! {

/// Why a command could not be carried out.
#[derive(Debug)]
pub enum AsmError {
    /// No secret's name holds the query.
    NoMatch { query: String },
    /// A choice among candidates named no candidate.
    InvalidSelection { index: usize, count: usize },
    /// A text meant to be JSON could not be read or written as such.
    Json { source: serde_json::Error },
    /// The external tool ran and reported failure.
    Remote { stderr: String },
}

} // verus!
