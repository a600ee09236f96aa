//! Progress of a pipeline run over all leads.

use vstd::prelude::*;
use crate::models::{done_state, done_state_text, raw_state, raw_state_text, Lead};
use crate::worker::LeadPayload;

verus! {

/// How many of `leads` are not done yet.
pub open spec fn pending_count(leads: Seq<Lead>) -> nat
    decreases leads.len(),
{
    if leads.len() == 0 {
        0
    } else {
        pending_count(leads.drop_last()) + (if leads.last().state@ == done_state() { 0nat } else { 1nat })
    }
}

/// Count the leads whose state is not `"DONE"`; the run is over when none is.
pub fn count_pending(leads: &Vec<Lead>) -> (count: usize)
    ensures
        count == pending_count(leads@),
{
    let done = done_state_text();
    let n = leads.len();
    let mut count: usize = 0;
    let mut i: usize = 0;
    while i < n
        invariant
            n == leads@.len(),
            i <= n,
            done@ == done_state(),
            count == pending_count(leads@.take(i as int)),
            count <= i,
        decreases n - i,
    {
        proof {
            assert(leads@.take(i + 1).drop_last() == leads@.take(i as int));
        }
        if leads[i].state != done {
            count = count + 1;
        }
        i = i + 1;
    }
    proof {
        assert(leads@.take(n as int) == leads@);
    }
    count
}

/// The ids, in order, of the leads of `leads` that are waiting for enrichment.
pub open spec fn raw_lead_ids(leads: Seq<Lead>) -> Seq<Seq<char>>
    decreases leads.len(),
{
    if leads.len() == 0 {
        Seq::empty()
    } else {
        raw_lead_ids(leads.drop_last()) + (if leads.last().state@ == raw_state() {
            seq![leads.last().id@]
        } else {
            Seq::empty()
        })
    }
}

/// The jobs that start a pipeline run: one payload for each lead in state
/// `"RAW"`, in the order of `leads`.
pub fn raw_lead_payloads(leads: &Vec<Lead>) -> (payloads: Vec<LeadPayload>)
    ensures
        payloads@.map_values(|p: LeadPayload| p.lead_id@) == raw_lead_ids(leads@),
{
    let raw = raw_state_text();
    let n = leads.len();
    let mut payloads: Vec<LeadPayload> = Vec::new();
    let mut i: usize = 0;
    while i < n
        invariant
            n == leads@.len(),
            i <= n,
            raw@ == raw_state(),
            payloads@.map_values(|p: LeadPayload| p.lead_id@) == raw_lead_ids(leads@.take(i as int)),
        decreases n - i,
    {
        proof {
            assert(leads@.take(i + 1).drop_last() == leads@.take(i as int));
        }
        if leads[i].state == raw {
            payloads.push(LeadPayload { lead_id: leads[i].id.clone() });
        }
        proof {
            assert(payloads@.map_values(|p: LeadPayload| p.lead_id@) =~= raw_lead_ids(leads@.take(i + 1)));
        }
        i = i + 1;
    }
    proof {
        assert(leads@.take(n as int) == leads@);
    }
    payloads
}

/// One lead is pending exactly when its state is not `"DONE"`.
pub proof fn lemma_pending_single(l: Lead)
    ensures
        pending_count(seq![l]) == if l.state@ == "DONE"@ { 0nat } else { 1nat },
{
    reveal_strlit("DONE");
    assert(done_state() =~= "DONE"@);
    assert(seq![l].drop_last() =~= Seq::<Lead>::empty());
    assert(seq![l].last() == l);
    assert(pending_count(seq![l].drop_last()) == 0);
}

/// The pending leads of two lists together are those of each list, added up.
pub proof fn lemma_pending_concat(a: Seq<Lead>, b: Seq<Lead>)
    ensures
        pending_count(a + b) == pending_count(a) + pending_count(b),
    decreases b.len(),
{
    if b.len() == 0 {
        assert(a + b =~= a);
    } else {
        assert((a + b).drop_last() =~= a + b.drop_last());
        assert((a + b).last() == b.last());
        lemma_pending_concat(a, b.drop_last());
    }
}

/// Every lead counts: the pending count is the number of positions whose
/// lead is not `"DONE"`, so it never exceeds the number of leads, and it is
/// zero exactly when every lead is done.
pub proof fn lemma_pending_zero_iff_all_done(leads: Seq<Lead>)
    ensures
        pending_count(leads) <= leads.len(),
        (pending_count(leads) == 0) <==> (forall|k: int| 0 <= k < leads.len() ==> #[trigger] leads[k].state@ == "DONE"@),
    decreases leads.len(),
{
    reveal_strlit("DONE");
    assert(done_state() =~= "DONE"@);
    if leads.len() > 0 {
        lemma_pending_zero_iff_all_done(leads.drop_last());
        let init = leads.drop_last();
        if pending_count(leads) == 0 {
            assert forall|k: int| 0 <= k < leads.len() implies #[trigger] leads[k].state@ == "DONE"@ by {
                if k < init.len() {
                    assert(init[k] == leads[k]);
                }
            }
        }
        if forall|k: int| 0 <= k < leads.len() ==> #[trigger] leads[k].state@ == "DONE"@ {
            assert forall|k: int| 0 <= k < init.len() implies #[trigger] init[k].state@ == "DONE"@ by {
                assert(init[k] == leads[k]);
            }
            assert(leads.last() == leads[leads.len() - 1]);
        }
    }
}

/// One lead is enqueued exactly when its state is `"RAW"`.
pub proof fn lemma_raw_single(l: Lead)
    ensures
        raw_lead_ids(seq![l]) == if l.state@ == "RAW"@ { seq![l.id@] } else { Seq::empty() },
{
    reveal_strlit("RAW");
    assert(raw_state() =~= "RAW"@);
    assert(seq![l].drop_last() =~= Seq::<Lead>::empty());
    assert(seq![l].last() == l);
    assert(raw_lead_ids(seq![l].drop_last()) =~= Seq::<Seq<char>>::empty());
    assert(Seq::<Seq<char>>::empty() + seq![l.id@] =~= seq![l.id@]);
    assert(Seq::<Seq<char>>::empty() + Seq::<Seq<char>>::empty() =~= Seq::<Seq<char>>::empty());
}

/// The leads enqueued from two lists together are those of the first list,
/// then those of the second.
pub proof fn lemma_raw_concat(a: Seq<Lead>, b: Seq<Lead>)
    ensures
        raw_lead_ids(a + b) == raw_lead_ids(a) + raw_lead_ids(b),
    decreases b.len(),
{
    if b.len() == 0 {
        assert(a + b =~= a);
        assert(raw_lead_ids(a) + Seq::<Seq<char>>::empty() =~= raw_lead_ids(a));
    } else {
        assert((a + b).drop_last() =~= a + b.drop_last());
        assert((a + b).last() == b.last());
        lemma_raw_concat(a, b.drop_last());
        assert(raw_lead_ids(a + b) =~= raw_lead_ids(a) + raw_lead_ids(b));
    }
}

} // verus!
