use leadintel::doubt::compute_doubt;
use leadintel::models::Observation;
use leadintel::signals::generate_signals;

fn obs(field: &str, value: &str) -> Observation {
    Observation::new("lead-1", field, value, "test", 100, "run-1")
}

#[test]
fn no_signals_when_consistent() {
    let observations = vec![obs("title", "VP"), obs("email", "a@b.com")];
    assert!(generate_signals("lead-1", &observations).is_empty());
}

#[test]
fn title_conflict_signal() {
    let observations = vec![obs("title", "VP"), obs("title", "Director")];
    let sigs = generate_signals("lead-1", &observations);
    assert!(sigs.iter().any(|s| s.signal_type == "title_conflict"));
}

#[test]
fn missing_title_signal() {
    let observations = vec![obs("email", "a@b.com")];
    let sigs = generate_signals("lead-1", &observations);
    assert!(sigs.iter().any(|s| s.signal_type == "missing_title"));
}

#[test]
fn signal_contents_are_exact() {
    let sigs = generate_signals("lead-7", &[obs("title", "A"), obs("title", "B")]);
    assert_eq!(sigs.len(), 1);
    assert_eq!(sigs[0].lead_id, "lead-7");
    assert_eq!(sigs[0].signal_type, "title_conflict");
    assert_eq!(sigs[0].score, 80);
    assert_eq!(sigs[0].explanation, "Multiple conflicting titles observed");

    let sigs = generate_signals("lead-7", &[]);
    assert_eq!(sigs.len(), 1);
    assert_eq!(sigs[0].signal_type, "missing_title");
    assert_eq!(sigs[0].score, 90);
    assert_eq!(sigs[0].explanation, "No title found across sources");
}

#[test]
fn zero_doubt_exactly_when_no_signals_and_email() {
    let cases = vec![
        vec![obs("title", "VP"), obs("email", "a@b.com")],
        vec![obs("title", "VP")],
        vec![obs("email", "a@b.com")],
        vec![obs("title", "VP"), obs("title", "CEO"), obs("email", "a@b.com")],
    ];
    for observations in &cases {
        let no_signals = generate_signals("l", observations).is_empty();
        let has_email = observations.iter().any(|o| o.field_name == "email");
        assert_eq!(compute_doubt(observations) == 0, no_signals && has_email);
    }
}

#[test]
fn conflict_and_missing_title_never_together() {
    let observations = vec![obs("title", "A"), obs("title", "B"), obs("title", "C")];
    assert!(generate_signals("l", &observations).len() <= 1);
}

#[test]
fn signals_get_fresh_ids_and_stamps() {
    let sigs = generate_signals("lead-7", &[obs("title", "A"), obs("title", "B")]);
    assert_eq!(sigs[0].id.len(), 36);
    assert_eq!(&sigs[0].id[14..15], "4");
    assert!(sigs[0].created_at.is_some());
}
