use leadintel::tasks::{
    agent_findings, waterfall_record, agent_email, agent_key, fields_still_needed, mock_source, shallow_key, shallow_record, waterfall_key,
    Agent, AgentPhase, Shallow, ShallowPhase, StageAction, StageEvent, Waterfall, WaterfallPhase,
};

fn texts(v: &[&str]) -> Vec<String> {
    v.iter().map(|s| s.to_string()).collect()
}

#[test]
fn idempotency_keys() {
    assert_eq!(shallow_key("L1"), "L1-shallow-v1");
    assert_eq!(agent_key("L1"), "L1-agent-v1");
    assert_eq!(waterfall_key("L1", "mock_hunter"), "L1-waterfall-mock_hunter-v1");
}

#[test]
fn agent_email_is_lowercased_and_joined() {
    assert_eq!(agent_email("Ada Lovelace", "Analytical Engines"), "ada.lovelace@analyticalengines.com");
    assert_eq!(agent_email("ÉMILE Zola", "Le Monde"), "émile.zola@lemonde.com");
}

#[test]
fn shallow_record_orders_title_first() {
    let obs = shallow_record(Some("VP Growth"), Some("person@company.com"));
    assert_eq!(obs.len(), 2);
    assert_eq!((obs[0].field_name.as_str(), obs[0].value.as_str()), ("title", "VP Growth"));
    assert_eq!((obs[0].source.as_str(), obs[0].confidence), ("mock_apollo", 60));
    assert_eq!((obs[1].field_name.as_str(), obs[1].confidence), ("email", 55));
    assert!(shallow_record(None, None).is_empty());
}

#[test]
fn still_needed_fields() {
    assert_eq!(fields_still_needed(&texts(&[])), texts(&["title", "email"]));
    assert_eq!(fields_still_needed(&texts(&["email"])), texts(&["title"]));
    assert_eq!(fields_still_needed(&texts(&["title", "phone"])), texts(&["email"]));
    assert!(fields_still_needed(&texts(&["email", "title"])).is_empty());
}

#[test]
fn shallow_runs_create_wait_record() {
    let (mut st, action) = Shallow::start("L1");
    match action {
        StageAction::LookUpRun { key } => assert_eq!(key, "L1-shallow-v1"),
        _ => panic!("shallow starts by looking its key up"),
    }
    match st.step(StageEvent::RunLookedUp(false)) {
        StageAction::CreateRun { stage, key } => {
            assert_eq!(stage, "shallow");
            assert_eq!(key, "L1-shallow-v1");
        }
        _ => panic!("a shallow stage that did not run yet creates its run"),
    }
    match st.step(StageEvent::RunCreated) {
        StageAction::Wait { millis } => assert_eq!(millis, 400),
        _ => panic!("then waits"),
    }
    match st.step(StageEvent::Waited) {
        StageAction::Record { observations, success } => {
            assert!(success);
            assert!(observations.len() <= 2);
            for o in &observations {
                assert_eq!(o.source, "mock_apollo");
                if o.field_name == "title" {
                    assert!(o.value == "VP Growth" || o.value == "Head of Marketing");
                } else {
                    assert_eq!(o.value, "person@company.com");
                }
            }
        }
        _ => panic!("then records"),
    }
    assert!(matches!(st.step(StageEvent::Recorded), StageAction::Finish));
    assert_eq!(st.phase, ShallowPhase::Finished);
}

#[test]
fn shallow_skips_when_already_ran() {
    let (mut st, _) = Shallow::start("L1");
    assert!(matches!(st.step(StageEvent::RunLookedUp(true)), StageAction::Finish));
    assert_eq!(st.phase, ShallowPhase::Finished);
    assert!(!st.expects_event(&StageEvent::RunCreated));
}

#[test]
fn waterfall_stops_when_all_fields_observed() {
    let (mut wf, action) = Waterfall::start("L1");
    assert!(matches!(action, StageAction::ReadObservedFields));
    let action = wf.step(StageEvent::ObservedFields(texts(&["title", "email"])));
    assert!(matches!(action, StageAction::Finish));
    assert_eq!(wf.phase, WaterfallPhase::Finished);
}

#[test]
fn waterfall_skips_sources_that_already_ran() {
    let (mut wf, _) = Waterfall::start("L1");
    for i in 0..4 {
        match wf.step(StageEvent::ObservedFields(texts(&["title"]))) {
            StageAction::LookUpRun { key } => {
                assert_eq!(key, format!("L1-waterfall-{}-v1", mock_source(i).name));
            }
            _ => panic!("a needed field makes the waterfall consult source {i}"),
        }
        let action = wf.step(StageEvent::RunLookedUp(true));
        if i < 3 {
            assert!(matches!(action, StageAction::ReadObservedFields));
        } else {
            assert!(matches!(action, StageAction::Finish));
        }
    }
    assert_eq!(wf.phase, WaterfallPhase::Finished);
}

#[test]
fn waterfall_asks_only_for_needed_fields() {
    let (mut wf, _) = Waterfall::start("L1");
    // Title known: the first source (mock_apollo) may only add an email.
    assert!(matches!(wf.step(StageEvent::ObservedFields(texts(&["title"]))), StageAction::LookUpRun { .. }));
    match wf.step(StageEvent::RunLookedUp(false)) {
        StageAction::CreateRun { stage, key } => {
            assert_eq!(stage, "waterfall");
            assert_eq!(key, "L1-waterfall-mock_apollo-v1");
        }
        _ => panic!("a source that did not run yet gets a run"),
    }
    match wf.step(StageEvent::RunCreated) {
        StageAction::Wait { millis } => assert_eq!(millis, 300),
        _ => panic!("then waits out the latency"),
    }
    match wf.step(StageEvent::Waited) {
        StageAction::Record { observations, success } => {
            assert_eq!(success, !observations.is_empty());
            for o in &observations {
                assert_eq!(o.field_name, "email");
                assert_eq!(o.value, "person@company.com");
                assert_eq!(o.confidence, 55);
            }
        }
        _ => panic!("then records"),
    }
    assert!(matches!(wf.step(StageEvent::Recorded), StageAction::ReadObservedFields));
    assert_eq!(wf.source, 1);
}

#[test]
fn hunter_never_returns_a_title() {
    let (mut wf, _) = Waterfall::start("L1");
    wf.step(StageEvent::ObservedFields(texts(&[])));
    wf.step(StageEvent::RunLookedUp(true));
    wf.step(StageEvent::ObservedFields(texts(&[])));
    wf.step(StageEvent::RunLookedUp(false));
    wf.step(StageEvent::RunCreated);
    match wf.step(StageEvent::Waited) {
        StageAction::Record { observations, .. } => {
            assert!(observations.iter().all(|o| o.field_name == "email" && o.source == "mock_hunter"));
        }
        _ => panic!("records"),
    }
}

#[test]
fn waterfall_refuses_unexpected_events() {
    let (wf, _) = Waterfall::start("L1");
    assert!(wf.expects_event(&StageEvent::ObservedFields(vec![])));
    assert!(!wf.expects_event(&StageEvent::Recorded));
    assert!(wf.is_well_formed());
}

#[test]
fn agent_skips_when_already_ran() {
    let (mut ag, action) = Agent::start("L1", "Ada", "Acme");
    match action {
        StageAction::LookUpRun { key } => assert_eq!(key, "L1-agent-v1"),
        _ => panic!("agent first looks its key up"),
    }
    assert!(matches!(ag.step(StageEvent::RunLookedUp(true)), StageAction::Finish));
    assert_eq!(ag.phase, AgentPhase::Finished);
}

#[test]
fn agent_fills_missing_fields() {
    let (mut ag, _) = Agent::start("L1", "Ada Lovelace", "Big Co");
    assert!(matches!(ag.step(StageEvent::RunLookedUp(false)), StageAction::CreateRun { .. }));
    match ag.step(StageEvent::RunCreated) {
        StageAction::Wait { millis } => assert_eq!(millis, 1200),
        _ => panic!("agent waits"),
    }
    assert!(matches!(ag.step(StageEvent::Waited), StageAction::ReadObservedFields));
    match ag.step(StageEvent::ObservedFields(texts(&[]))) {
        StageAction::Record { observations, success } => {
            assert!(success);
            assert_eq!(observations.len(), 2);
            assert_eq!(observations[0].field_name, "title");
            assert_eq!(observations[0].confidence, 90);
            assert_eq!(observations[1].field_name, "email");
            assert_eq!(observations[1].value, "ada.lovelace@bigco.com");
            assert_eq!(observations[1].source, "mock_agent");
            assert_eq!(observations[1].confidence, 70);
        }
        _ => panic!("agent records"),
    }
    assert!(matches!(ag.step(StageEvent::Recorded), StageAction::Finish));
}

#[test]
fn agent_adds_nothing_already_known() {
    let (mut ag, _) = Agent::start("L1", "Ada", "Acme");
    ag.step(StageEvent::RunLookedUp(false));
    ag.step(StageEvent::RunCreated);
    ag.step(StageEvent::Waited);
    match ag.step(StageEvent::ObservedFields(texts(&["email"]))) {
        StageAction::Record { observations, .. } => {
            assert_eq!(observations.len(), 1);
            assert_eq!(observations[0].field_name, "title");
        }
        _ => panic!("agent records"),
    }
}

#[test]
fn waterfall_record_uses_source_confidences() {
    let obs = waterfall_record(2, Some("VP Marketing"), Some("person@company.com"));
    assert_eq!(obs.len(), 2);
    assert_eq!((obs[0].source.as_str(), obs[0].confidence), ("mock_clearbit", 80));
    assert_eq!((obs[1].field_name.as_str(), obs[1].confidence), ("email", 70));
    let obs = waterfall_record(3, Some("Growth Lead"), None);
    assert_eq!((obs[0].source.as_str(), obs[0].confidence), ("mock_linkedin_scraper", 85));
}

#[test]
fn agent_findings_fill_only_missing_fields() {
    let obs = agent_findings(&texts(&[]), "Chief Revenue Officer", "Jane Doe", "Acme Corp");
    assert_eq!(obs.len(), 2);
    assert_eq!(obs[0].value, "Chief Revenue Officer");
    assert_eq!(obs[0].confidence, 90);
    assert_eq!(obs[1].value, "jane.doe@acmecorp.com");
    let obs = agent_findings(&texts(&["title"]), "ignored", "Jane Doe", "Acme Corp");
    assert_eq!(obs.len(), 1);
    assert_eq!(obs[0].field_name, "email");
    assert!(agent_findings(&texts(&["email", "title"]), "x", "J", "A").is_empty());
}
