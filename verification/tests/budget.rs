use leadintel::budget::can_spend;
use leadintel::models::Lead;

fn lead_with_budget(budget: i64, spent: i64) -> Lead {
    let mut l = Lead::new("Test", "Corp");
    l.budget_cents = budget;
    l.spent_cents = spent;
    l
}

#[test]
fn within_budget() {
    let lead = lead_with_budget(25, 10);
    assert!(can_spend(&lead, 10)); // 10 + 10 = 20 <= 25
}

#[test]
fn exactly_at_budget() {
    let lead = lead_with_budget(25, 17);
    assert!(can_spend(&lead, 8)); // 17 + 8 = 25 <= 25
}

#[test]
fn over_budget() {
    let lead = lead_with_budget(25, 20);
    assert!(!can_spend(&lead, 8)); // 20 + 8 = 28 > 25
}

#[test]
fn new_lead_starts_raw_with_default_budget() {
    let lead = Lead::new("Ada Lovelace", "Analytical Engines");
    assert_eq!(lead.name, "Ada Lovelace");
    assert_eq!(lead.company, "Analytical Engines");
    assert_eq!(lead.state, "RAW");
    assert_eq!(lead.current_doubt, 100);
    assert_eq!(lead.budget_cents, 25);
    assert_eq!(lead.spent_cents, 0);
    let stamp = lead.created_at.expect("a new lead is stamped");
    assert!(stamp.len() >= 25);
    assert!(stamp.ends_with("+00:00"));
}

#[test]
fn sum_past_i64_range_is_not_affordable() {
    let lead = lead_with_budget(i64::MAX, i64::MAX);
    assert!(!can_spend(&lead, 1));
    let lead = lead_with_budget(0, i64::MIN);
    assert!(can_spend(&lead, i64::MIN));
}

#[test]
fn fresh_ids_are_v4_uuids() {
    let a = Lead::new("A", "B");
    let b = Lead::new("A", "B");
    assert_eq!(a.id.len(), 36);
    assert_eq!(&a.id[14..15], "4");
    assert_eq!(a.id.chars().filter(|c| *c == '-').count(), 4);
    assert!(a.id.chars().all(|c| c == '-' || c.is_ascii_digit() || ('a'..='f').contains(&c)));
    assert_ne!(a.id, b.id);
}
