use leadintel::config::PipelineStage;
use leadintel::models::{Lead, Observation};
use leadintel::worker::{finish_pass, select_stage};

fn obs(field: &str, value: &str) -> Observation {
    Observation::new("lead-1", field, value, "test", 100, "run-1")
}

fn stage(name: &str, threshold: i64, cost: i64) -> PipelineStage {
    PipelineStage { stage: name.to_string(), doubt_threshold: threshold, cost }
}

/// The pipeline of the project's README: shallow above 0.5 (2c), waterfall
/// above 0.2 (8c), agent above 0.1 (15c).
fn readme_pipeline() -> Vec<PipelineStage> {
    vec![stage("shallow", 50, 2), stage("waterfall", 20, 8), stage("agent", 10, 15)]
}

#[test]
fn no_observations_runs_shallow() {
    let mut lead = Lead::new("A", "B");
    let choice = select_stage(&mut lead, &vec![], &readme_pipeline());
    assert_eq!(choice, Some(0));
    assert_eq!(lead.current_doubt, 100);
}

#[test]
fn missing_email_runs_waterfall() {
    let mut lead = Lead::new("A", "B");
    let choice = select_stage(&mut lead, &vec![obs("title", "VP")], &readme_pipeline());
    assert_eq!(lead.current_doubt, 30);
    assert_eq!(choice, Some(1));
}

#[test]
fn resolved_lead_runs_nothing() {
    let mut lead = Lead::new("A", "B");
    let choice = select_stage(&mut lead, &vec![obs("title", "VP"), obs("email", "e@x.io")], &readme_pipeline());
    assert_eq!(choice, None);
}

#[test]
fn over_budget_stops_instead_of_trying_later_stages() {
    let mut lead = Lead::new("A", "B");
    lead.spent_cents = 24;
    // doubt 1.0: first exceeded is shallow (2c), 24 + 2 > 25: nothing runs,
    // even though no later stage is tried.
    let choice = select_stage(&mut lead, &vec![], &readme_pipeline());
    assert_eq!(choice, None);
    assert_eq!(lead.spent_cents, 24);
}

#[test]
fn finish_after_stage_charges_and_requeues() {
    let pipeline = readme_pipeline();
    let mut lead = Lead::new("A", "B");
    let observations = vec![obs("title", "VP")];
    let out = finish_pass(&mut lead, &pipeline, Some(0), &observations);
    assert_eq!(lead.spent_cents, 2);
    assert_eq!(lead.current_doubt, 30);
    assert_eq!(lead.state, "RAW");
    assert!(out.signals.is_empty());
    let payload = out.requeue.expect("doubt 0.3 after a stage asks for another pass");
    assert_eq!(payload.lead_id, lead.id);
}

#[test]
fn finish_below_threshold_marks_done() {
    let pipeline = readme_pipeline();
    let mut lead = Lead::new("A", "B");
    lead.spent_cents = 10;
    let observations = vec![obs("title", "VP"), obs("email", "e@x.io")];
    let out = finish_pass(&mut lead, &pipeline, Some(2), &observations);
    assert_eq!(lead.spent_cents, 25);
    assert_eq!(lead.current_doubt, 0);
    assert_eq!(lead.state, "DONE");
    assert!(out.requeue.is_none());
}

#[test]
fn finish_without_stage_marks_done_and_keeps_spend() {
    let pipeline = readme_pipeline();
    let mut lead = Lead::new("A", "B");
    lead.spent_cents = 24;
    let out = finish_pass(&mut lead, &pipeline, None, &vec![]);
    assert_eq!(lead.spent_cents, 24);
    assert_eq!(lead.current_doubt, 100);
    assert_eq!(lead.state, "DONE");
    assert!(out.requeue.is_none());
    assert_eq!(out.signals.len(), 1);
    assert_eq!(out.signals[0].signal_type, "missing_title");
}

#[test]
fn passes_stay_within_budget_and_end() {
    // With no new observations ever, every pass runs shallow until the
    // budget (25c) allows no more: 12 passes of 2c, then done.
    let pipeline = readme_pipeline();
    let mut lead = Lead::new("A", "B");
    let mut passes = 0;
    loop {
        let choice = select_stage(&mut lead, &vec![], &pipeline);
        let out = finish_pass(&mut lead, &pipeline, choice, &vec![]);
        passes += 1;
        assert!(lead.spent_cents <= lead.budget_cents);
        if out.requeue.is_none() {
            break;
        }
    }
    assert_eq!(passes, 13);
    assert_eq!(lead.spent_cents, 24);
    assert_eq!(lead.state, "DONE");
}
