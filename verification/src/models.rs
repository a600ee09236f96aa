//! The records the pipeline works on: leads, observations, enrichment runs and
//! signals.
//!
//! Fractions of one (doubt scores, confidences, signal scores) are held as whole
//! hundredths: `100` stands for `1.0`, `55` for `0.55`.

use vstd::prelude::*;
use crate::ids::{new_uuid_v4, now_rfc3339, is_uuid_v4_text, is_utc_rfc3339_stamp};

verus! {

/// Doubt of a lead about which nothing is known yet (`1.0`).
pub const FULL_DOUBT: u32 = 100;

/// Budget, in cents, that every new lead starts with.
pub const DEFAULT_BUDGET_CENTS: i64 = 25;

/// A person to be enriched.
///
/// `state` starts as `"RAW"` and becomes `"DONE"` when the pipeline is finished
/// with the lead; `current_doubt` is in hundredths (`100` = no data);
/// `budget_cents` / `spent_cents` bound what may be spent on the lead.
#[derive(Debug, Clone)]
pub struct Lead {
    pub id: String,
    pub name: String,
    pub company: String,
    pub state: String,
    pub current_doubt: u32,
    pub budget_cents: i64,
    pub spent_cents: i64,
    pub created_at: Option<String>,
}

/// The state text of a lead that is waiting for enrichment.
pub open spec fn raw_state() -> Seq<char> {
    seq!['R', 'A', 'W']
}

/// The state text of a lead the pipeline is finished with.
pub open spec fn done_state() -> Seq<char> {
    seq!['D', 'O', 'N', 'E']
}

/// `"RAW"` as a `String`.
pub fn raw_state_text() -> (s: String)
    ensures
        s@ == raw_state(),
{
    let s = "RAW".to_owned();
    proof {
        reveal_strlit("RAW");
    }
    s
}

/// `"DONE"` as a `String`.
pub fn done_state_text() -> (s: String)
    ensures
        s@ == done_state(),
{
    let s = "DONE".to_owned();
    proof {
        reveal_strlit("DONE");
    }
    s
}

impl Lead {
    /// Create a new raw lead ready for enrichment: a fresh UUID, state `"RAW"`,
    /// full doubt, a budget of 25 cents of which nothing is spent, and the
    /// current time as its creation stamp.
    pub fn new(name: &str, company: &str) -> (lead: Lead)
        ensures
            is_uuid_v4_text(lead.id@),
            lead.name@ == name@,
            lead.company@ == company@,
            lead.state@ == raw_state(),
            lead.current_doubt == FULL_DOUBT,
            lead.budget_cents == DEFAULT_BUDGET_CENTS,
            lead.spent_cents == 0,
            lead.created_at matches Some(t) && is_utc_rfc3339_stamp(t@),
    {
        Lead {
            id: new_uuid_v4(),
            name: name.to_owned(),
            company: company.to_owned(),
            state: raw_state_text(),
            current_doubt: FULL_DOUBT,
            budget_cents: DEFAULT_BUDGET_CENTS,
            spent_cents: 0,
            created_at: Some(now_rfc3339()),
        }
    }
}

/// A single piece of evidence about a lead from one source.
///
/// Each enrichment source produces one observation per field it returns; two
/// sources that both return a title give two observations, which is how
/// conflicts are detected. `confidence` is in hundredths.
#[derive(Debug, Clone)]
pub struct Observation {
    pub id: String,
    pub lead_id: String,
    pub field_name: String,
    pub value: String,
    pub source: String,
    pub confidence: u32,
    pub run_id: String,
    pub created_at: Option<String>,
}

impl Observation {
    /// A new observation with a fresh UUID and the current time.
    pub fn new(
        lead_id: &str,
        field_name: &str,
        value: &str,
        source: &str,
        confidence: u32,
        run_id: &str,
    ) -> (obs: Observation)
        ensures
            is_uuid_v4_text(obs.id@),
            obs.lead_id@ == lead_id@,
            obs.field_name@ == field_name@,
            obs.value@ == value@,
            obs.source@ == source@,
            obs.confidence == confidence,
            obs.run_id@ == run_id@,
            obs.created_at matches Some(t) && is_utc_rfc3339_stamp(t@),
    {
        Observation {
            id: new_uuid_v4(),
            lead_id: lead_id.to_owned(),
            field_name: field_name.to_owned(),
            value: value.to_owned(),
            source: source.to_owned(),
            confidence,
            run_id: run_id.to_owned(),
            created_at: Some(now_rfc3339()),
        }
    }
}

/// One execution of one pipeline stage for one lead.
///
/// The `idempotency_key` (such as `"<lead id>-shallow-v1"`) identifies the
/// stage execution: a run whose key already exists is not started again.
#[derive(Debug, Clone)]
pub struct EnrichmentRun {
    pub id: String,
    pub lead_id: String,
    pub stage: String,
    pub idempotency_key: String,
    pub cost_cents: i64,
    pub success: bool,
    pub started_at: Option<String>,
    pub finished_at: Option<String>,
}

impl EnrichmentRun {
    /// A new, not yet successful run that starts now and has cost nothing.
    pub fn new(lead_id: &str, stage: &str, key: &str) -> (run: EnrichmentRun)
        ensures
            is_uuid_v4_text(run.id@),
            run.lead_id@ == lead_id@,
            run.stage@ == stage@,
            run.idempotency_key@ == key@,
            run.cost_cents == 0,
            !run.success,
            run.started_at matches Some(t) && is_utc_rfc3339_stamp(t@),
            run.finished_at is None,
    {
        EnrichmentRun {
            id: new_uuid_v4(),
            lead_id: lead_id.to_owned(),
            stage: stage.to_owned(),
            idempotency_key: key.to_owned(),
            cost_cents: 0,
            success: false,
            started_at: Some(now_rfc3339()),
            finished_at: None,
        }
    }
}

/// A derived insight about a lead, generated after enrichment, such as
/// `"title_conflict"` or `"missing_title"`. `score` is in hundredths.
#[derive(Debug, Clone)]
pub struct Signal {
    pub id: String,
    pub lead_id: String,
    pub signal_type: String,
    pub score: u32,
    pub explanation: String,
    pub created_at: Option<String>,
}

impl Signal {
    /// A new signal with a fresh UUID and the current time.
    pub fn new(lead_id: &str, signal_type: &str, score: u32, explanation: &str) -> (sig: Signal)
        ensures
            is_uuid_v4_text(sig.id@),
            sig.lead_id@ == lead_id@,
            sig.signal_type@ == signal_type@,
            sig.score == score,
            sig.explanation@ == explanation@,
            sig.created_at matches Some(t) && is_utc_rfc3339_stamp(t@),
    {
        Signal {
            id: new_uuid_v4(),
            lead_id: lead_id.to_owned(),
            signal_type: signal_type.to_owned(),
            score,
            explanation: explanation.to_owned(),
            created_at: Some(now_rfc3339()),
        }
    }
}

} // verus!
