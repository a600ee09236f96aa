//! Signal generation: derived data-quality flags about a lead.
//!
//!   - `"title_conflict"`: two sources gave different titles;
//!   - `"missing_title"`: no source found any title.

use vstd::prelude::*;
use crate::models::{Observation, Signal};
use crate::ids::{is_uuid_v4_text, is_utc_rfc3339_stamp};
use crate::doubt::{has_field, titles_conflict, title_field, email_field, doubt_of};

verus! {

/// Score of a title conflict signal (`0.8`).
pub const TITLE_CONFLICT_SCORE: u32 = 80;
/// Score of a missing title signal (`0.9`).
pub const MISSING_TITLE_SCORE: u32 = 90;

/// The type, score and explanation of a signal, without its identity.
pub open spec fn signal_content(s: Signal) -> (Seq<char>, u32, Seq<char>) {
    (s.signal_type@, s.score, s.explanation@)
}

pub open spec fn title_conflict_type() -> Seq<char> {
    "title_conflict"@
}

pub open spec fn title_conflict_explanation() -> Seq<char> {
    "Multiple conflicting titles observed"@
}

pub open spec fn missing_title_type() -> Seq<char> {
    "missing_title"@
}

pub open spec fn missing_title_explanation() -> Seq<char> {
    "No title found across sources"@
}

/// The signals, by content and in order, that observations `obs` give.
pub open spec fn signals_of(obs: Seq<Observation>) -> Seq<(Seq<char>, u32, Seq<char>)> {
    let conflict: Seq<(Seq<char>, u32, Seq<char>)> = if titles_conflict(obs) {
        seq![(title_conflict_type(), TITLE_CONFLICT_SCORE, title_conflict_explanation())]
    } else {
        Seq::empty()
    };
    let missing: Seq<(Seq<char>, u32, Seq<char>)> = if !has_field(obs, title_field()) {
        seq![(missing_title_type(), MISSING_TITLE_SCORE, missing_title_explanation())]
    } else {
        Seq::empty()
    };
    conflict + missing
}

/// Generate signals from a lead's observations, to be stored by the caller.
pub fn generate_signals(lead_id: &str, observations: &[Observation]) -> (signals: Vec<Signal>)
    ensures
        signals@.len() == signals_of(observations@).len(),
        forall|i: int|
            0 <= i < signals@.len() ==> #[trigger] signal_content(signals@[i])
                == signals_of(observations@)[i] && signals@[i].lead_id@ == lead_id@
                && is_uuid_v4_text(signals@[i].id@) && (signals@[i].created_at matches Some(t) && is_utc_rfc3339_stamp(t@)),
{
    let summary = crate::doubt::summarize_fields(observations);
    let ghost obs = observations@;
    let mut signals: Vec<Signal> = Vec::new();
    if summary.titles_conflict {
        let sig = Signal::new(
            lead_id,
            "title_conflict",
            TITLE_CONFLICT_SCORE,
            "Multiple conflicting titles observed",
        );
        signals.push(sig);
    }
    if !summary.has_title {
        let sig = Signal::new(
            lead_id,
            "missing_title",
            MISSING_TITLE_SCORE,
            "No title found across sources",
        );
        signals.push(sig);
    }
    proof {
        let expected = signals_of(obs);
        if summary.titles_conflict {
            assert(signal_content(signals@[0]) == expected[0]);
        }
    }
    signals
}

/// A title conflict and a missing title never come together: a lead either
/// has title observations (which may disagree) or has none.
pub proof fn lemma_signals_exclusive(obs: Seq<Observation>)
    ensures
        signals_of(obs).len() <= 1,
        !(titles_conflict(obs) && !has_field(obs, title_field())),
{
    if titles_conflict(obs) {
        let (i, j) = choose|i: int, j: int|
            0 <= i < obs.len() && 0 <= j < obs.len() && #[trigger] obs[i].field_name@
                == title_field() && #[trigger] obs[j].field_name@ == title_field()
                && obs[i].value@ != obs[j].value@;
        assert(has_field(obs, title_field()));
    }
}

/// For a lead with observations, the doubt score is zero exactly when no
/// signal is raised and an email has been observed.
pub proof fn lemma_zero_doubt_iff_no_signals(obs: Seq<Observation>)
    requires
        obs.len() > 0,
    ensures
        (doubt_of(obs) == 0) <==> (signals_of(obs).len() == 0 && has_field(obs, email_field())),
{
}

/// A lead that raises the missing title signal has a doubt score of at least
/// the missing title penalty.
pub proof fn lemma_missing_title_signal_doubt(obs: Seq<Observation>)
    requires
        !has_field(obs, title_field()),
    ensures
        doubt_of(obs) >= 40,
{
}

/// The signals do not depend on the order of the observations.
pub proof fn lemma_signals_order_free(a: Seq<Observation>, b: Seq<Observation>)
    requires
        a.to_multiset() == b.to_multiset(),
    ensures
        signals_of(a) == signals_of(b),
{
    crate::doubt::lemma_doubt_order_free(a, b);
}

/// Any two title observations that disagree, wherever they stand in the list,
/// raise exactly one signal: the title conflict, scored 0.8.
pub proof fn lemma_disagreeing_titles_signal(obs: Seq<Observation>, i: int, j: int)
    requires
        0 <= i < obs.len(),
        0 <= j < obs.len(),
        obs[i].field_name@ == "title"@,
        obs[j].field_name@ == "title"@,
        obs[i].value@ != obs[j].value@,
    ensures
        signals_of(obs) == seq![("title_conflict"@, 80u32, "Multiple conflicting titles observed"@)],
{
    reveal_strlit("title");
    assert(title_field() =~= "title"@);
    assert(has_field(obs, title_field()));
    assert(titles_conflict(obs));
    assert(signals_of(obs) =~= seq![("title_conflict"@, 80u32, "Multiple conflicting titles observed"@)]);
}

} // verus!
