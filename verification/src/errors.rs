//! The error taxonomy of the pipeline.

use vstd::prelude::*;

verus! {

/// A failure of one of the pipeline's three effectful stages.
///
/// Each variant carries a human-readable cause for the surrounding
/// program to print.
#[derive(Debug)]
pub enum PipelineError {
    /// The repository could not be opened or read, or the diff could not
    /// be computed.
    RepositoryAccessError(String),
    /// The remote generation service could not be reached, or answered
    /// with a non-success status.
    GenerationError(String),
    /// The index could not be written as a tree, HEAD could not be
    /// resolved, or the commit object could not be created.
    CommitCreationError(String),
}

impl PipelineError {
    /// The human-readable cause carried by the error.
    pub fn message(&self) -> (r: String)
        ensures
            match *self {
                PipelineError::RepositoryAccessError(m) => r@ == m@,
                PipelineError::GenerationError(m) => r@ == m@,
                PipelineError::CommitCreationError(m) => r@ == m@,
            },
    {
        match self {
            PipelineError::RepositoryAccessError(m) => m.clone(),
            PipelineError::GenerationError(m) => m.clone(),
            PipelineError::CommitCreationError(m) => m.clone(),
        }
    }
}

} // verus!
