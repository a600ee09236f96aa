use leadintel::doubt::compute_doubt;
use leadintel::models::Observation;

fn obs(field: &str, value: &str) -> Observation {
    Observation::new("lead-1", field, value, "test", 100, "run-1")
}

/// The doubt score as the fraction of one it stands for.
fn fraction(hundredths: u32) -> f64 {
    hundredths as f64 / 100.0
}

#[test]
fn no_observations_returns_1() {
    assert_eq!(fraction(compute_doubt(&[])), 1.0);
}

#[test]
fn both_fields_present_no_conflict() {
    let observations = vec![obs("title", "VP Growth"), obs("email", "a@b.com")];
    assert_eq!(fraction(compute_doubt(&observations)), 0.0);
}

#[test]
fn missing_email_adds_0_3() {
    let observations = vec![obs("title", "VP Growth")];
    // Missing email: +0.3
    assert!((fraction(compute_doubt(&observations)) - 0.3).abs() < 1e-9);
}

#[test]
fn conflicting_titles_add_0_3() {
    let observations = vec![
        obs("title", "VP Growth"),
        obs("title", "Head of Marketing"), // conflict
        obs("email", "a@b.com"),
    ];
    // conflict: +0.3
    assert!((fraction(compute_doubt(&observations)) - 0.3).abs() < 1e-9);
}

#[test]
fn capped_at_1() {
    let observations = vec![
        obs("title", "A"),
        obs("title", "B"), // conflict
    ];
    // title present (no +0.4), conflict (+0.3), missing email (+0.3) = 0.6
    assert!((fraction(compute_doubt(&observations)) - 0.6).abs() < 1e-9);
}

#[test]
fn missing_title_adds_0_4() {
    let observations = vec![obs("email", "a@b.com")];
    assert_eq!(compute_doubt(&observations), 40);
}

#[test]
fn only_other_fields_give_0_7() {
    let observations = vec![obs("phone", "555")];
    assert_eq!(compute_doubt(&observations), 70);
}

#[test]
fn repeated_equal_titles_are_no_conflict() {
    let observations = vec![obs("title", "VP"), obs("email", "a@b.com"), obs("title", "VP")];
    assert_eq!(compute_doubt(&observations), 0);
}

#[test]
fn field_names_are_case_sensitive() {
    let observations = vec![obs("Title", "VP"), obs("email", "a@b.com")];
    assert_eq!(compute_doubt(&observations), 40);
}

#[test]
fn observation_keeps_its_fields() {
    let o = Observation::new("lead-9", "email", "x@y.z", "mock_hunter", 75, "run-3");
    assert_eq!(o.lead_id, "lead-9");
    assert_eq!(o.field_name, "email");
    assert_eq!(o.value, "x@y.z");
    assert_eq!(o.source, "mock_hunter");
    assert_eq!(o.confidence, 75);
    assert_eq!(o.run_id, "run-3");
    assert_eq!(o.id.len(), 36);
}
