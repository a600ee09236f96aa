//! One pass of a lead through the pipeline.
//!
//! A pass computes the lead's doubt, runs at most one stage (the first whose
//! threshold the doubt exceeds, if the budget allows it), recomputes the doubt,
//! derives signals, and then either marks the lead done or asks for another
//! pass.

use vstd::prelude::*;
use crate::budget::{affordable, can_spend};
use crate::config::PipelineStage;
use crate::ids::{is_uuid_v4_text, is_utc_rfc3339_stamp};
use crate::doubt::{compute_doubt, doubt_of};
use crate::models::{done_state, done_state_text, Lead, Observation, Signal};
use crate::signals::{generate_signals, signal_content, signals_of};

verus! {

/// A lead is done once its doubt falls below this (`0.2`).
pub const DONE_BELOW: u32 = 20;

/// The data that travels with each job in the queue.
#[derive(Debug, Clone)]
pub struct LeadPayload {
    pub lead_id: String,
}

/// The first stage at index `from` or later whose threshold `doubt` exceeds.
pub open spec fn first_exceeded(doubt: int, pipeline: Seq<PipelineStage>, from: int) -> Option<int>
    decreases pipeline.len() - from,
{
    if from < 0 || from >= pipeline.len() {
        None
    } else if doubt > pipeline[from].doubt_threshold {
        Some(from)
    } else {
        first_exceeded(doubt, pipeline, from + 1)
    }
}

/// The stage a pass runs: the first one whose threshold the doubt exceeds,
/// provided the lead can afford it; if it cannot, no stage runs.
pub open spec fn chosen_stage(doubt: int, spent: int, budget: int, pipeline: Seq<PipelineStage>) -> Option<int> {
    match first_exceeded(doubt, pipeline, 0) {
        Some(i) => if affordable(spent, budget, pipeline[i].cost as int) {
            Some(i)
        } else {
            None
        },
        None => None,
    }
}

/// What a pass charges the lead: the cost of the stage it runs, or nothing.
pub open spec fn pass_charge(chosen: Option<int>, pipeline: Seq<PipelineStage>) -> int {
    match chosen {
        Some(i) => pipeline[i].cost as int,
        None => 0,
    }
}

/// Whether a pass that ran `executed` and left doubt `doubt` finishes the lead.
pub open spec fn pass_finishes(executed: bool, doubt: int) -> bool {
    !executed || doubt < DONE_BELOW
}

/// The lead unchanged but for its doubt.
pub open spec fn same_but_doubt(a: Lead, b: Lead) -> bool {
    &&& a.id == b.id
    &&& a.name == b.name
    &&& a.company == b.company
    &&& a.state == b.state
    &&& a.budget_cents == b.budget_cents
    &&& a.spent_cents == b.spent_cents
    &&& a.created_at == b.created_at
}

proof fn lemma_first_exceeded_at(doubt: int, pipeline: Seq<PipelineStage>, from: int)
    requires
        0 <= from < pipeline.len(),
    ensures
        doubt > pipeline[from].doubt_threshold ==> first_exceeded(doubt, pipeline, from) == Some(from),
        doubt <= pipeline[from].doubt_threshold ==> first_exceeded(doubt, pipeline, from)
            == first_exceeded(doubt, pipeline, from + 1),
{
}

/// Start a pass: set the lead's doubt from its observations and pick the stage
/// to run, if any.
pub fn select_stage(lead: &mut Lead, observations: &Vec<Observation>, pipeline: &Vec<PipelineStage>) -> (choice: Option<usize>)
    ensures
        final(lead).current_doubt == doubt_of(observations@),
        same_but_doubt(*final(lead), *old(lead)),
        chosen_stage(doubt_of(observations@), old(lead).spent_cents as int,
            old(lead).budget_cents as int, pipeline@) == match choice {
            Some(i) => Some(i as int),
            None => None,
        },
{
    lead.current_doubt = compute_doubt(observations.as_slice());
    let doubt = lead.current_doubt;
    let n = pipeline.len();
    let mut i: usize = 0;
    while i < n
        invariant
            n == pipeline@.len(),
            i <= n,
            first_exceeded(doubt as int, pipeline@, 0) == first_exceeded(doubt as int, pipeline@, i as int),
            doubt == lead.current_doubt,
            doubt == doubt_of(observations@),
            same_but_doubt(*lead, *old(lead)),
        decreases n - i,
    {
        proof {
            lemma_first_exceeded_at(doubt as int, pipeline@, i as int);
        }
        let stage = &pipeline[i];
        if (doubt as i64) > stage.doubt_threshold {
            if can_spend(lead, stage.cost) {
                return Some(i);
            } else {
                return None;
            }
        }
        i = i + 1;
    }
    None
}

/// The outcome of a pass: the signals to store and, unless the lead is done,
/// the payload that puts it back on the queue.
pub struct PassOutcome {
    pub signals: Vec<Signal>,
    pub requeue: Option<LeadPayload>,
}

/// Finish a pass: charge the stage that ran (if any), set the doubt from the
/// observations after it, derive signals, and mark the lead done when no stage
/// ran or its doubt fell below `0.2`; otherwise ask for another pass.
pub fn finish_pass(
    lead: &mut Lead,
    pipeline: &Vec<PipelineStage>,
    executed: Option<usize>,
    observations: &Vec<Observation>,
) -> (out: PassOutcome)
    requires
        executed matches Some(i) ==> i < pipeline@.len() && i64::MIN <= old(lead).spent_cents
            + pipeline@[i as int].cost <= i64::MAX,
    ensures
        final(lead).spent_cents == old(lead).spent_cents + pass_charge(
            match executed {
                Some(i) => Some(i as int),
                None => None,
            },
            pipeline@,
        ),
        final(lead).current_doubt == doubt_of(observations@),
        final(lead).id == old(lead).id,
        final(lead).name == old(lead).name,
        final(lead).company == old(lead).company,
        final(lead).budget_cents == old(lead).budget_cents,
        final(lead).created_at == old(lead).created_at,
        out.signals@.len() == signals_of(observations@).len(),
        forall|k: int|
            0 <= k < out.signals@.len() ==> #[trigger] signal_content(out.signals@[k])
                == signals_of(observations@)[k] && out.signals@[k].lead_id@ == old(lead).id@
                && is_uuid_v4_text(out.signals@[k].id@) && (out.signals@[k].created_at matches Some(t) && is_utc_rfc3339_stamp(t@)),
        pass_finishes(executed is Some, doubt_of(observations@)) ==> final(lead).state@ == done_state()
            && out.requeue is None,
        !pass_finishes(executed is Some, doubt_of(observations@)) ==> (final(lead).state == old(lead).state
            && (out.requeue matches Some(p) && p.lead_id@ == old(lead).id@)),
{
    if let Some(i) = executed {
        lead.spent_cents = lead.spent_cents + pipeline[i].cost;
    }
    lead.current_doubt = compute_doubt(observations.as_slice());
    let signals = generate_signals(lead.id.as_str(), observations.as_slice());
    if executed.is_none() || lead.current_doubt < DONE_BELOW {
        lead.state = done_state_text();
        PassOutcome { signals, requeue: None }
    } else {
        let payload = LeadPayload { lead_id: lead.id.clone() };
        PassOutcome { signals, requeue: Some(payload) }
    }
}

/// A stage is only ever charged when it fits the budget, so a pass keeps a
/// lead's spending within its budget: if it was within before the pass, it is
/// within after.
pub proof fn lemma_pass_respects_budget(doubt: int, spent: int, budget: int, pipeline: Seq<PipelineStage>)
    ensures
        chosen_stage(doubt, spent, budget, pipeline) is Some ==> spent + pass_charge(
            chosen_stage(doubt, spent, budget, pipeline),
            pipeline,
        ) <= budget,
        spent <= budget ==> spent + pass_charge(chosen_stage(doubt, spent, budget, pipeline), pipeline)
            <= budget,
{
}

/// The stage a pass runs is the first one whose threshold the doubt exceeds:
/// every earlier stage has a threshold at or above the doubt.
pub proof fn lemma_chosen_is_first(doubt: int, spent: int, budget: int, pipeline: Seq<PipelineStage>, i: int)
    requires
        chosen_stage(doubt, spent, budget, pipeline) == Some(i),
    ensures
        0 <= i < pipeline.len(),
        doubt > pipeline[i].doubt_threshold,
        forall|j: int| 0 <= j < i ==> doubt <= #[trigger] pipeline[j].doubt_threshold,
{
    lemma_first_exceeded_facts(doubt, pipeline, 0);
}

proof fn lemma_first_exceeded_facts(doubt: int, pipeline: Seq<PipelineStage>, from: int)
    requires
        0 <= from,
    ensures
        first_exceeded(doubt, pipeline, from) matches Some(i) ==> from <= i < pipeline.len()
            && doubt > pipeline[i].doubt_threshold && forall|j: int|
            from <= j < i ==> doubt <= #[trigger] pipeline[j].doubt_threshold,
        first_exceeded(doubt, pipeline, from) is None ==> forall|j: int|
            from <= j < pipeline.len() ==> doubt <= #[trigger] pipeline[j].doubt_threshold,
    decreases pipeline.len() - from,
{
    if from < pipeline.len() {
        lemma_first_exceeded_facts(doubt, pipeline, from + 1);
    }
}

/// With positive stage costs, the room left in the budget is a measure that
/// every re-enqueue strictly shrinks and that never goes below zero, so a lead
/// within its budget is re-enqueued only finitely often.
pub proof fn lemma_requeue_consumes_budget(
    doubt_before: int,
    doubt_after: int,
    spent: int,
    budget: int,
    pipeline: Seq<PipelineStage>,
)
    requires
        forall|j: int| 0 <= j < pipeline.len() ==> #[trigger] pipeline[j].cost > 0,
        !pass_finishes(chosen_stage(doubt_before, spent, budget, pipeline) is Some, doubt_after),
    ensures
        0 <= budget - (spent + pass_charge(chosen_stage(doubt_before, spent, budget, pipeline), pipeline))
            < budget - spent,
{
    let i = chosen_stage(doubt_before, spent, budget, pipeline)->0;
    lemma_chosen_is_first(doubt_before, spent, budget, pipeline, i);
}

/// A pass that runs no stage always finishes the lead.
pub proof fn lemma_idle_pass_finishes(doubt: int)
    ensures
        pass_finishes(false, doubt),
{
}

/// A lead whose doubt is at or below every stage's threshold runs no stage,
/// and the pass then finishes it: with non-negative thresholds, a lead with
/// zero doubt is done.
pub proof fn lemma_resolved_lead_is_done(doubt: int, spent: int, budget: int, pipeline: Seq<PipelineStage>)
    requires
        forall|j: int| 0 <= j < pipeline.len() ==> doubt <= #[trigger] pipeline[j].doubt_threshold,
    ensures
        chosen_stage(doubt, spent, budget, pipeline) is None,
        pass_finishes(chosen_stage(doubt, spent, budget, pipeline) is Some, doubt),
{
    lemma_first_exceeded_facts(doubt, pipeline, 0);
}

} // verus!
