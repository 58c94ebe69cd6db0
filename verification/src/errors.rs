//! Error taxonomy of the pipeline.
//!
//! Fatal construction problems are distinguished from failures of a running
//! stage and from purely diagnostic conditions, so that callers never conflate
//! a condition that aborts startup with one that is merely logged.

use vstd::prelude::*;

verus! {

/// The ways the pipeline can fail.
///
/// `Configuration` and `Transport` are fatal at construction time: the
/// pipeline is all-or-nothing and never starts partially. `Stage` records the
/// abnormal exit of a running stage's control loop and is surfaced through the
/// shutdown protocol. `Diagnostic` marks a condition that is logged and never
/// propagated as a pipeline failure.
#[derive(Clone, Copy, PartialEq, Eq, Structural, Debug)]
pub enum PipelineError {
    Configuration,
    Transport,
    Stage,
    Diagnostic,
}

impl PipelineError {
    /// Whether this error aborts pipeline startup before any stage runs.
    pub fn is_fatal_at_construction(&self) -> (r: bool)
        ensures
            r == (*self is Configuration || *self is Transport),
    {
        match self {
            PipelineError::Configuration => true,
            PipelineError::Transport => true,
            PipelineError::Stage => false,
            PipelineError::Diagnostic => false,
        }
    }
}

} // verus!
