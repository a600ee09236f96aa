//! Stage dispatcher: maps a stage name to the enrichment task that runs it.

use vstd::prelude::*;
use crate::error::PipelineError;

verus! {

/// The enrichment tasks a pipeline stage can name.
#[derive(Clone, Copy, PartialEq, Eq, Structural, Debug)]
pub enum StageKind {
    /// One fast source.
    Shallow,
    /// Several sources in priority order.
    Waterfall,
    /// The deep-research pass.
    Agent,
}

/// The task that a stage name denotes, if any.
pub open spec fn stage_kind_of(name: Seq<char>) -> Option<StageKind> {
    if name == "shallow"@ {
        Some(StageKind::Shallow)
    } else if name == "waterfall"@ {
        Some(StageKind::Waterfall)
    } else if name == "agent"@ {
        Some(StageKind::Agent)
    } else {
        None
    }
}

/// Dispatch a stage name to its task; any other name is refused.
pub fn stage_kind(stage_name: &str) -> (res: Result<StageKind, PipelineError>)
    ensures
        match stage_kind_of(stage_name@) {
            Some(k) => res == Ok::<StageKind, PipelineError>(k),
            None => res matches Err(PipelineError::UnknownStage(n)) && n@ == stage_name@,
        },
{
    let name = stage_name.to_owned();
    if name == "shallow".to_owned() {
        Ok(StageKind::Shallow)
    } else if name == "waterfall".to_owned() {
        Ok(StageKind::Waterfall)
    } else if name == "agent".to_owned() {
        Ok(StageKind::Agent)
    } else {
        Err(PipelineError::UnknownStage(name))
    }
}

} // verus!
