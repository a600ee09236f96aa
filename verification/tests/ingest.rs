use leadintel::ingest::{ingest_csv, ingest_row};
use leadintel::models::Lead;
use leadintel::pipeline::{count_pending, raw_lead_payloads};

fn row(fields: &[&str]) -> Vec<String> {
    fields.iter().map(|s| s.to_string()).collect()
}

fn header() -> Vec<String> {
    row(&["name", "company"])
}

#[test]
fn row_is_trimmed() {
    let r = ingest_row(&header(), &row(&["  Ada Lovelace\t", " Analytical Engines ", "ignored"])).unwrap();
    assert_eq!(r.name, "Ada Lovelace");
    assert_eq!(r.company, "Analytical Engines");
}

#[test]
fn blank_name_is_skipped() {
    assert!(ingest_row(&header(), &row(&["   ", "Acme"])).is_none());
    assert!(ingest_row(&header(), &row(&[])).is_none());
}

#[test]
fn missing_company_is_empty() {
    let r = ingest_row(&header(), &row(&["Grace"])).unwrap();
    assert_eq!(r.name, "Grace");
    assert_eq!(r.company, "");
}

#[test]
fn unicode_white_space_is_trimmed() {
    let r = ingest_row(&header(), &row(&["\u{3000}Grace\u{a0}", "\u{2003}Navy"])).unwrap();
    assert_eq!(r.name, "Grace");
    assert_eq!(r.company, "Navy");
}

#[test]
fn pending_counts_leads_not_done() {
    let mut a = Lead::new("a", "x");
    let b = Lead::new("b", "x");
    let mut c = Lead::new("c", "x");
    a.state = "DONE".to_string();
    c.state = "done".to_string();
    assert_eq!(count_pending(&vec![a, b, c]), 2);
    assert_eq!(count_pending(&vec![]), 0);
}

#[test]
fn columns_are_chosen_by_header() {
    let headers = row(&["id", "name", "company"]);
    let r = ingest_row(&headers, &row(&["7", "Alice", "Acme"])).unwrap();
    assert_eq!(r.name, "Alice");
    assert_eq!(r.company, "Acme");

    let headers = row(&["company", "email", "name"]);
    let r = ingest_row(&headers, &row(&["Acme", "a@acme.io", " Bob "])).unwrap();
    assert_eq!(r.name, "Bob");
    assert_eq!(r.company, "Acme");
}

#[test]
fn missing_name_column_skips_row() {
    let headers = row(&["id", "company"]);
    assert!(ingest_row(&headers, &row(&["7", "Acme"])).is_none());
}

#[test]
fn only_raw_leads_are_enqueued() {
    let a = Lead::new("a", "x");
    let mut b = Lead::new("b", "x");
    let c = Lead::new("c", "x");
    b.state = "DONE".to_string();
    let ids: Vec<String> = raw_lead_payloads(&vec![a.clone(), b, c.clone()]).into_iter().map(|p| p.lead_id).collect();
    assert_eq!(ids, vec![a.id, c.id]);
}

#[test]
fn csv_file_is_read_by_header() {
    let leads = ingest_csv(b"id,name,company\n7,Alice,Acme\n8,  ,Nobody\n9, Bob ,Bobco\n");
    assert!(leads.error.is_none());
    let got: Vec<(String, String)> = leads.rows.into_iter().map(|r| (r.name, r.company)).collect();
    assert_eq!(got, vec![("Alice".to_string(), "Acme".to_string()), ("Bob".to_string(), "Bobco".to_string())]);
}

#[test]
fn csv_rows_before_a_bad_row_are_kept() {
    // A record with a different number of fields is an error for the csv reader.
    let leads = ingest_csv(b"name,company\nAlice,Acme\nBob\nCarol,C\n");
    assert!(leads.error.is_some());
    assert_eq!(leads.rows.len(), 1);
    assert_eq!(leads.rows[0].name, "Alice");
}

#[test]
fn empty_csv_gives_no_leads() {
    let leads = ingest_csv(b"");
    assert!(leads.error.is_none());
    assert!(leads.rows.is_empty());
}
