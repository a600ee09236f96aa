use leadintel::error::PipelineError;
use leadintel::stages::{stage_kind, StageKind};

#[test]
fn known_stages_dispatch() {
    assert_eq!(stage_kind("shallow").ok(), Some(StageKind::Shallow));
    assert_eq!(stage_kind("waterfall").ok(), Some(StageKind::Waterfall));
    assert_eq!(stage_kind("agent").ok(), Some(StageKind::Agent));
}

#[test]
fn unknown_stage_is_refused() {
    match stage_kind("Shallow") {
        Err(PipelineError::UnknownStage(name)) => assert_eq!(name, "Shallow"),
        _ => panic!("stage names are matched exactly"),
    }
}
