//! Doubt score: how uncertain we are about a lead's information, in hundredths
//! (`0` = nothing in doubt, `100` = nothing known).
//!
//! No observations at all give full doubt. Otherwise a missing title costs 40,
//! titles that disagree cost 30 and a missing email costs 30, and the sum is
//! capped at 100.

use vstd::prelude::*;
use crate::models::Observation;

verus! {

/// Penalty for a lead with no title observation (`0.4`).
pub const MISSING_TITLE_PENALTY: u32 = 40;
/// Penalty for a lead whose title observations disagree (`0.3`).
pub const TITLE_CONFLICT_PENALTY: u32 = 30;
/// Penalty for a lead with no email observation (`0.3`).
pub const MISSING_EMAIL_PENALTY: u32 = 30;

/// The field name of title observations.
pub open spec fn title_field() -> Seq<char> {
    seq!['t', 'i', 't', 'l', 'e']
}

/// The field name of email observations.
pub open spec fn email_field() -> Seq<char> {
    seq!['e', 'm', 'a', 'i', 'l']
}

/// `"title"` as a `String`.
pub fn title_field_text() -> (s: String)
    ensures
        s@ == title_field(),
{
    let s = "title".to_owned();
    proof {
        reveal_strlit("title");
    }
    s
}

/// `"email"` as a `String`.
pub fn email_field_text() -> (s: String)
    ensures
        s@ == email_field(),
{
    let s = "email".to_owned();
    proof {
        reveal_strlit("email");
    }
    s
}

/// Some observation in `obs` is about `field`.
pub open spec fn has_field(obs: Seq<Observation>, field: Seq<char>) -> bool {
    exists|i: int| 0 <= i < obs.len() && #[trigger] obs[i].field_name@ == field
}

/// Two title observations in `obs` carry different values.
pub open spec fn titles_conflict(obs: Seq<Observation>) -> bool {
    exists|i: int, j: int|
        0 <= i < obs.len() && 0 <= j < obs.len() && #[trigger] obs[i].field_name@ == title_field()
            && #[trigger] obs[j].field_name@ == title_field() && obs[i].value@ != obs[j].value@
}

/// The doubt score of a lead with observations `obs`, in hundredths.
pub open spec fn doubt_of(obs: Seq<Observation>) -> int {
    if obs.len() == 0 {
        100
    } else {
        let sum = (if has_field(obs, title_field()) { 0int } else { 40int })
            + (if titles_conflict(obs) { 30int } else { 0int })
            + (if has_field(obs, email_field()) { 0int } else { 30int });
        if sum < 100 { sum } else { 100 }
    }
}

/// What the doubt score and the signals of a lead depend on.
pub struct FieldSummary {
    pub has_title: bool,
    pub titles_conflict: bool,
    pub has_email: bool,
}

/// Scan a lead's observations once for titles, disagreeing titles and emails.
pub fn summarize_fields(observations: &[Observation]) -> (s: FieldSummary)
    ensures
        s.has_title == has_field(observations@, title_field()),
        s.titles_conflict == titles_conflict(observations@),
        s.has_email == has_field(observations@, email_field()),
{
    let n = observations.len();
    let title = title_field_text();
    let email = email_field_text();
    let mut first_title: Option<usize> = None;
    let mut conflict = false;
    let mut seen_email = false;
    let mut i: usize = 0;
    while i < n
        invariant
            n == observations@.len(),
            i <= n,
            title@ == title_field(),
            email@ == email_field(),
            match first_title {
                None => forall|k: int| 0 <= k < i ==> #[trigger] observations@[k].field_name@
                    != title_field(),
                Some(f) => f < i && observations@[f as int].field_name@ == title_field(),
            },
            first_title is None ==> !conflict,
            first_title matches Some(f) ==> (conflict <==> exists|k: int|
                0 <= k < i && #[trigger] observations@[k].field_name@ == title_field()
                    && observations@[k].value@ != observations@[f as int].value@),
            seen_email <==> exists|k: int|
                0 <= k < i && #[trigger] observations@[k].field_name@ == email_field(),
        decreases n - i,
    {
        let o = &observations[i];
        if o.field_name == title {
            match first_title {
                None => {
                    first_title = Some(i);
                },
                Some(f) => {
                    if observations[f].value != o.value {
                        conflict = true;
                    }
                },
            }
        }
        if o.field_name == email {
            seen_email = true;
        }
        i = i + 1;
    }
    let ghost obs = observations@;
    proof {
        match first_title {
            None => {
                assert(!has_field(obs, title_field()));
                assert(!titles_conflict(obs));
            },
            Some(f) => {
                assert(has_field(obs, title_field()));
                if conflict {
                    let k = choose|k: int|
                        0 <= k < n && #[trigger] obs[k].field_name@ == title_field()
                            && obs[k].value@ != obs[f as int].value@;
                    assert(obs[f as int].field_name@ == title_field());
                    assert(titles_conflict(obs));
                } else {
                    assert forall|a: int, b: int|
                        0 <= a < obs.len() && 0 <= b < obs.len() && #[trigger] obs[a].field_name@
                            == title_field() && #[trigger] obs[b].field_name@ == title_field()
                        implies obs[a].value@ == obs[b].value@ by {
                        assert(obs[a].value@ == obs[f as int].value@);
                        assert(obs[b].value@ == obs[f as int].value@);
                    }
                    assert(!titles_conflict(obs));
                }
            },
        }
        if seen_email {
            assert(has_field(obs, email_field()));
        } else {
            assert(!has_field(obs, email_field()));
        }
    }
    FieldSummary { has_title: first_title.is_some(), titles_conflict: conflict, has_email: seen_email }
}

/// Compute the doubt score for a lead given its current observations.
pub fn compute_doubt(observations: &[Observation]) -> (doubt: u32)
    ensures
        doubt == doubt_of(observations@),
        doubt <= 100,
{
    if observations.len() == 0 {
        return 100;
    }
    let summary = summarize_fields(observations);
    let mut doubt: u32 = 0;
    if !summary.has_title {
        doubt = doubt + MISSING_TITLE_PENALTY;
    }
    if summary.titles_conflict {
        doubt = doubt + TITLE_CONFLICT_PENALTY;
    }
    if !summary.has_email {
        doubt = doubt + MISSING_EMAIL_PENALTY;
    }
    if doubt > 100 {
        100
    } else {
        doubt
    }
}

/// `"title"` and `"email"` are the field names that the spec names.
proof fn lemma_field_names()
    ensures
        title_field() == "title"@,
        email_field() == "email"@,
{
    reveal_strlit("title");
    reveal_strlit("email");
    assert(title_field() =~= "title"@);
    assert(email_field() =~= "email"@);
}

/// Every observation of `a` also stands somewhere in `b`: then what `a` has,
/// `b` has too.
proof fn lemma_fields_carry_over(a: Seq<Observation>, b: Seq<Observation>)
    requires
        forall|x: Observation| a.contains(x) ==> b.contains(x),
    ensures
        forall|f: Seq<char>| has_field(a, f) ==> has_field(b, f),
        titles_conflict(a) ==> titles_conflict(b),
{
    assert forall|f: Seq<char>| has_field(a, f) implies has_field(b, f) by {
        let i = choose|i: int| 0 <= i < a.len() && #[trigger] a[i].field_name@ == f;
        assert(a.contains(a[i]));
        let k = choose|k: int| 0 <= k < b.len() && b[k] == a[i];
        assert(b[k].field_name@ == f);
    }
    if titles_conflict(a) {
        let (i, j) = choose|i: int, j: int|
            0 <= i < a.len() && 0 <= j < a.len() && #[trigger] a[i].field_name@ == title_field()
                && #[trigger] a[j].field_name@ == title_field() && a[i].value@ != a[j].value@;
        assert(a.contains(a[i]));
        assert(a.contains(a[j]));
        let p = choose|p: int| 0 <= p < b.len() && b[p] == a[i];
        let q = choose|q: int| 0 <= q < b.len() && b[q] == a[j];
        assert(b[p].field_name@ == title_field() && b[q].field_name@ == title_field());
        assert(titles_conflict(b));
    }
}

/// The order of the observations does not matter: two lists holding the same
/// observations, in any order, have the same doubt, the same fields and the
/// same conflict.
pub proof fn lemma_doubt_order_free(a: Seq<Observation>, b: Seq<Observation>)
    requires
        a.to_multiset() == b.to_multiset(),
    ensures
        doubt_of(a) == doubt_of(b),
        titles_conflict(a) == titles_conflict(b),
        forall|f: Seq<char>| has_field(a, f) == has_field(b, f),
{
    a.to_multiset_ensures();
    b.to_multiset_ensures();
    assert forall|x: Observation| a.contains(x) implies b.contains(x) by {
        assert(a.to_multiset().count(x) > 0);
    }
    assert forall|x: Observation| b.contains(x) implies a.contains(x) by {
        assert(b.to_multiset().count(x) > 0);
    }
    lemma_fields_carry_over(a, b);
    lemma_fields_carry_over(b, a);
}

/// Any two title observations that disagree, wherever they stand in the list,
/// make the titles conflict: the doubt is then 0.3, or 0.6 without an email.
pub proof fn lemma_disagreeing_titles_doubt(obs: Seq<Observation>, i: int, j: int)
    requires
        0 <= i < obs.len(),
        0 <= j < obs.len(),
        obs[i].field_name@ == "title"@,
        obs[j].field_name@ == "title"@,
        obs[i].value@ != obs[j].value@,
    ensures
        doubt_of(obs) == if (exists|k: int| 0 <= k < obs.len() && #[trigger] obs[k].field_name@ == "email"@) {
            30int
        } else {
            60int
        },
{
    lemma_field_names();
    assert(has_field(obs, title_field()));
    assert(titles_conflict(obs));
}

/// A lead with a title and an email, whose title observations all agree, has
/// no doubt left.
pub proof fn lemma_agreeing_titles_doubt(obs: Seq<Observation>, t: int, e: int)
    requires
        0 <= t < obs.len(),
        0 <= e < obs.len(),
        obs[t].field_name@ == "title"@,
        obs[e].field_name@ == "email"@,
        forall|i: int, j: int|
            0 <= i < obs.len() && 0 <= j < obs.len() && #[trigger] obs[i].field_name@ == "title"@
                && #[trigger] obs[j].field_name@ == "title"@ ==> obs[i].value@ == obs[j].value@,
    ensures
        doubt_of(obs) == 0,
{
    lemma_field_names();
    assert(has_field(obs, title_field()));
    assert(has_field(obs, email_field()));
}

/// A lead with observations but no title observation has doubt 0.4, or 0.7
/// when it has no email either.
pub proof fn lemma_titleless_doubt(obs: Seq<Observation>)
    requires
        obs.len() > 0,
        forall|i: int| 0 <= i < obs.len() ==> #[trigger] obs[i].field_name@ != "title"@,
    ensures
        doubt_of(obs) == if (exists|k: int| 0 <= k < obs.len() && #[trigger] obs[k].field_name@ == "email"@) {
            40int
        } else {
            70int
        },
{
    lemma_field_names();
    assert(!has_field(obs, title_field()));
    assert(!titles_conflict(obs));
}

/// A lead whose title observations all agree but that has no email has doubt
/// 0.3.
pub proof fn lemma_emailless_doubt(obs: Seq<Observation>, t: int)
    requires
        0 <= t < obs.len(),
        obs[t].field_name@ == "title"@,
        forall|i: int| 0 <= i < obs.len() ==> #[trigger] obs[i].field_name@ != "email"@,
        forall|i: int, j: int|
            0 <= i < obs.len() && 0 <= j < obs.len() && #[trigger] obs[i].field_name@ == "title"@
                && #[trigger] obs[j].field_name@ == "title"@ ==> obs[i].value@ == obs[j].value@,
    ensures
        doubt_of(obs) == 30,
{
    lemma_field_names();
    assert(has_field(obs, title_field()));
    assert(!has_field(obs, email_field()));
}

} // verus!
