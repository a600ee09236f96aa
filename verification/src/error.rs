//! Errors that the pipeline's own rules produce.

use vstd::prelude::*;

verus! {

/// A request that the pipeline's rules refuse.
#[derive(Debug)]
pub enum PipelineError {
    /// A pipeline stage name that no enrichment task handles.
    UnknownStage(String),
    /// A queued job without a task name; holds the job id.
    MissingTaskName(String),
    /// A queued job whose task name no handler is registered for.
    UnknownTask(String),
}

} // verus!
