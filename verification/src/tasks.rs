//! The three enrichment stages: shallow, waterfall and agent.
//!
//! Each stage stands for calls to vendor APIs, which are mocked: a source
//! answers after a fixed latency with values picked at random from its pools.
//! The decisions of each stage (its idempotency key, which fields it still
//! needs, what it records and whether the run succeeded) are made here; the
//! caller performs the storage, the waiting and the lookups.

use vstd::prelude::*;
use crate::doubt::{title_field, email_field, title_field_text, email_field_text};
use crate::random::pick_one;
use crate::text::{lowercase, replace_char, replace_char_with, texts_view, to_lowercase};

verus! {

/// An observation to store for the lead being enriched, under the current run.
/// `confidence` is in hundredths.
pub struct NewObservation {
    pub field_name: String,
    pub value: String,
    pub source: String,
    pub confidence: u32,
}

impl View for NewObservation {
    type V = (Seq<char>, Seq<char>, Seq<char>, u32);

    open spec fn view(&self) -> (Seq<char>, Seq<char>, Seq<char>, u32) {
        (self.field_name@, self.value@, self.source@, self.confidence)
    }
}

/// What the caller must do next for a running stage.
pub enum StageAction {
    /// Read which fields the lead has observations for.
    ReadObservedFields,
    /// Look up whether a run with this idempotency key exists.
    LookUpRun { key: String },
    /// Create a run of stage `stage` with this idempotency key for the lead.
    CreateRun { stage: String, key: String },
    /// Wait this many milliseconds.
    Wait { millis: u64 },
    /// Store these observations under the run just created, and complete
    /// that run with `success`.
    Record { observations: Vec<NewObservation>, success: bool },
    /// The stage is over.
    Finish,
}

/// What the caller reports back after performing an action.
pub enum StageEvent {
    /// The distinct field names the lead has observations for.
    ObservedFields(Vec<String>),
    /// Whether a run with the looked-up key exists.
    RunLookedUp(bool),
    RunCreated,
    Waited,
    Recorded,
}

/// The contents of a list of observations to store.
pub open spec fn observations_view(v: Seq<NewObservation>) -> Seq<(Seq<char>, Seq<char>, Seq<char>, u32)> {
    v.map_values(|o: NewObservation| o@)
}

/// The text of an optional string slice.
pub open spec fn opt_text(o: Option<&str>) -> Option<Seq<char>> {
    match o {
        Some(t) => Some(t@),
        None => None,
    }
}

/// The observation to store for `field` if a value was found.
pub open spec fn found(field: Seq<char>, value: Option<Seq<char>>, source: Seq<char>, confidence: u32) -> Seq<(Seq<char>, Seq<char>, Seq<char>, u32)> {
    match value {
        Some(v) => seq![(field, v, source, confidence)],
        None => Seq::empty(),
    }
}

/// The observations a source records for the title and email it returned,
/// title first.
pub open spec fn recorded(
    source: Seq<char>,
    title: Option<Seq<char>>,
    title_confidence: u32,
    email: Option<Seq<char>>,
    email_confidence: u32,
) -> Seq<(Seq<char>, Seq<char>, Seq<char>, u32)> {
    found(title_field(), title, source, title_confidence) + found(email_field(), email, source, email_confidence)
}

/// Build the observations for a title and an email, title first; a missing
/// value records nothing.
fn record(
    source: &str,
    title: Option<&str>,
    title_confidence: u32,
    email: Option<&str>,
    email_confidence: u32,
) -> (obs: Vec<NewObservation>)
    ensures
        observations_view(obs@) == recorded(source@, opt_text(title), title_confidence, opt_text(email), email_confidence),
{
    let mut obs: Vec<NewObservation> = Vec::new();
    if let Some(t) = title {
        obs.push(NewObservation {
            field_name: title_field_text(),
            value: t.to_owned(),
            source: source.to_owned(),
            confidence: title_confidence,
        });
    }
    if let Some(e) = email {
        obs.push(NewObservation {
            field_name: email_field_text(),
            value: e.to_owned(),
            source: source.to_owned(),
            confidence: email_confidence,
        });
    }
    proof {
        assert(observations_view(obs@) =~= recorded(
            source@,
            opt_text(title),
            title_confidence,
            opt_text(email),
            email_confidence,
        ));
    }
    obs
}

/// Append `suffix` to a copy of `prefix`.
fn joined(prefix: &str, suffix: &str) -> (s: String)
    ensures
        s@ == prefix@ + suffix@,
{
    let mut s = prefix.to_owned();
    s.append(suffix);
    s
}

/// The pick a random choice from `pool` may give when the field is `wanted`:
/// nothing when it is not wanted or the pool is empty, otherwise one of the
/// pool's entries (an entry may itself be "nothing found").
pub open spec fn allowed_pick(pool: Seq<Option<Seq<char>>>, wanted: bool, pick: Option<Seq<char>>) -> bool {
    if wanted && pool.len() > 0 {
        pool.contains(pick)
    } else {
        pick is None
    }
}

/// The texts of a pool of optional string slices.
pub open spec fn pool_view(pool: Seq<Option<&str>>) -> Seq<Option<Seq<char>>> {
    pool.map_values(|o: Option<&str>| opt_text(o))
}

/// Pick at random from `pool` when `wanted`, flattening "nothing found".
fn pick_if(pool: &Vec<Option<&'static str>>, wanted: bool) -> (pick: Option<&'static str>)
    ensures
        allowed_pick(pool_view(pool@), wanted, opt_text(pick)),
{
    if !wanted {
        return None;
    }
    let picked = pick_one(pool.as_slice());
    match picked {
        Some(entry) => {
            proof {
                let k = choose|k: int| 0 <= k < pool@.len() && pool@[k] == *entry;
                assert(pool_view(pool@)[k] == opt_text(*entry));
            }
            *entry
        },
        None => None,
    }
}

// ---------------------------------------------------------------------------
// Stage 1: shallow
// ---------------------------------------------------------------------------

/// Name of the single source of the shallow stage.
pub open spec fn shallow_source() -> Seq<char> {
    "mock_apollo"@
}

/// Latency of the shallow source, in milliseconds.
pub const SHALLOW_LATENCY_MS: u64 = 400;
/// Confidence of a title found by the shallow stage (`0.6`).
pub const SHALLOW_TITLE_CONFIDENCE: u32 = 60;
/// Confidence of an email found by the shallow stage (`0.55`).
pub const SHALLOW_EMAIL_CONFIDENCE: u32 = 55;

/// The titles the shallow source may answer with.
pub open spec fn shallow_titles() -> Seq<Option<Seq<char>>> {
    seq![Some("VP Growth"@), Some("Head of Marketing"@), None]
}

/// The emails the shallow source may answer with.
pub open spec fn shallow_emails() -> Seq<Option<Seq<char>>> {
    seq![Some("person@company.com"@), None]
}

/// The idempotency key of the shallow stage for a lead.
pub open spec fn shallow_key_of(lead_id: Seq<char>) -> Seq<char> {
    lead_id + "-shallow-v1"@
}

/// The idempotency key of the shallow stage: `"<lead id>-shallow-v1"`.
pub fn shallow_key(lead_id: &str) -> (key: String)
    ensures
        key@ == shallow_key_of(lead_id@),
{
    joined(lead_id, "-shallow-v1")
}

/// What the shallow stage records for the title and email its source returned.
pub fn shallow_record(title: Option<&str>, email: Option<&str>) -> (obs: Vec<NewObservation>)
    ensures
        observations_view(obs@) == recorded(
            shallow_source(),
            opt_text(title),
            SHALLOW_TITLE_CONFIDENCE,
            opt_text(email),
            SHALLOW_EMAIL_CONFIDENCE,
        ),
{
    record("mock_apollo", title, SHALLOW_TITLE_CONFIDENCE, email, SHALLOW_EMAIL_CONFIDENCE)
}

/// Ask the shallow source: a random title and a random email from its pools,
/// and the observations to record for them. The run always counts as a
/// success.
pub fn shallow_answer() -> (obs: Vec<NewObservation>)
    ensures
        exists|t: Option<Seq<char>>, e: Option<Seq<char>>|
            #[trigger] shallow_answer_allowed(t, e) && observations_view(obs@) == recorded(
                shallow_source(),
                t,
                SHALLOW_TITLE_CONFIDENCE,
                e,
                SHALLOW_EMAIL_CONFIDENCE,
            ),
{
    let titles: Vec<Option<&'static str>> = vec![Some("VP Growth"), Some("Head of Marketing"), None];
    let emails: Vec<Option<&'static str>> = vec![Some("person@company.com"), None];
    assert(pool_view(titles@) =~= shallow_titles());
    assert(pool_view(emails@) =~= shallow_emails());
    let title = pick_if(&titles, true);
    let email = pick_if(&emails, true);
    let obs = shallow_record(title, email);
    assert(shallow_answer_allowed(opt_text(title), opt_text(email)));
    obs
}

/// Where a shallow stage stands.
#[derive(Clone, Copy, PartialEq, Eq, Structural, Debug)]
pub enum ShallowPhase {
    /// Waiting to learn whether the shallow stage already ran for the lead.
    LookingUpRun,
    /// Waiting for the run record to be created.
    CreatingRun,
    /// Waiting out the source's latency.
    Waiting,
    /// Waiting for the observations to be stored.
    Recording,
    /// Done.
    Finished,
}

/// The shallow stage of one lead: a single fast source whose answer is
/// recorded whatever it is. A lead for which the stage already ran (its
/// idempotency key exists) is skipped.
pub struct Shallow {
    pub lead_id: String,
    pub phase: ShallowPhase,
}

impl Shallow {
    /// Whether the state expects `event` next.
    pub open spec fn expects(self, event: StageEvent) -> bool {
        match event {
            StageEvent::RunLookedUp(_) => self.phase == ShallowPhase::LookingUpRun,
            StageEvent::RunCreated => self.phase == ShallowPhase::CreatingRun,
            StageEvent::Waited => self.phase == ShallowPhase::Waiting,
            StageEvent::Recorded => self.phase == ShallowPhase::Recording,
            StageEvent::ObservedFields(_) => false,
        }
    }

    /// Whether the state expects `event` next.
    pub fn expects_event(&self, event: &StageEvent) -> (ok: bool)
        ensures
            ok == self.expects(*event),
    {
        match event {
            StageEvent::RunLookedUp(_) => self.phase == ShallowPhase::LookingUpRun,
            StageEvent::RunCreated => self.phase == ShallowPhase::CreatingRun,
            StageEvent::Waited => self.phase == ShallowPhase::Waiting,
            StageEvent::Recorded => self.phase == ShallowPhase::Recording,
            StageEvent::ObservedFields(_) => false,
        }
    }

    /// Start the shallow stage: first look up whether it already ran.
    pub fn start(lead_id: &str) -> (res: (Shallow, StageAction))
        ensures
            res.0.lead_id@ == lead_id@,
            res.0.phase == ShallowPhase::LookingUpRun,
            res.1 matches StageAction::LookUpRun { key } && key@ == shallow_key_of(lead_id@),
    {
        let st = Shallow { lead_id: lead_id.to_owned(), phase: ShallowPhase::LookingUpRun };
        (st, StageAction::LookUpRun { key: shallow_key(lead_id) })
    }

    /// Take the caller's report of the last action and decide the next one:
    /// stop if the stage already ran; otherwise create the run, wait out the
    /// latency, record the source's answer (the run always succeeds), then
    /// finish.
    pub fn step(&mut self, event: StageEvent) -> (action: StageAction)
        requires
            old(self).expects(event),
        ensures
            final(self).lead_id == old(self).lead_id,
            match event {
                StageEvent::RunLookedUp(exists) => if exists {
                    final(self).phase == ShallowPhase::Finished && action is Finish
                } else {
                    final(self).phase == ShallowPhase::CreatingRun && (action matches StageAction::CreateRun {
                        stage,
                        key,
                    } && stage@ == "shallow"@ && key@ == shallow_key_of(old(self).lead_id@))
                },
                StageEvent::RunCreated => final(self).phase == ShallowPhase::Waiting
                    && (action matches StageAction::Wait { millis } && millis == SHALLOW_LATENCY_MS),
                StageEvent::Waited => {
                    &&& final(self).phase == ShallowPhase::Recording
                    &&& action matches StageAction::Record { observations, success }
                    &&& success
                    &&& exists|t: Option<Seq<char>>, e: Option<Seq<char>>|
                        #[trigger] shallow_answer_allowed(t, e) && observations_view(observations@)
                            == recorded(
                            shallow_source(),
                            t,
                            SHALLOW_TITLE_CONFIDENCE,
                            e,
                            SHALLOW_EMAIL_CONFIDENCE,
                        )
                },
                _ => final(self).phase == ShallowPhase::Finished && action is Finish,
            },
    {
        match event {
            StageEvent::RunLookedUp(exists) => {
                if exists {
                    self.phase = ShallowPhase::Finished;
                    StageAction::Finish
                } else {
                    self.phase = ShallowPhase::CreatingRun;
                    StageAction::CreateRun {
                        stage: "shallow".to_owned(),
                        key: shallow_key(self.lead_id.as_str()),
                    }
                }
            },
            StageEvent::RunCreated => {
                self.phase = ShallowPhase::Waiting;
                StageAction::Wait { millis: SHALLOW_LATENCY_MS }
            },
            StageEvent::Waited => {
                self.phase = ShallowPhase::Recording;
                let observations = shallow_answer();
                StageAction::Record { observations, success: true }
            },
            _ => {
                self.phase = ShallowPhase::Finished;
                StageAction::Finish
            },
        }
    }
}

/// The answers the shallow source may give.
pub open spec fn shallow_answer_allowed(t: Option<Seq<char>>, e: Option<Seq<char>>) -> bool {
    allowed_pick(shallow_titles(), true, t) && allowed_pick(shallow_emails(), true, e)
}

// ---------------------------------------------------------------------------
// Stage 2: waterfall
// ---------------------------------------------------------------------------

/// How many mock vendor sources the waterfall tries, in priority order.
pub const MOCK_SOURCE_COUNT: usize = 4;

/// A mock vendor source: its name, latency, answer pools and the confidence of
/// what it finds (in hundredths; zero means the source never returns that
/// field).
pub struct MockSource {
    pub name: &'static str,
    pub latency_ms: u64,
    pub titles: Vec<Option<&'static str>>,
    pub emails: Vec<Option<&'static str>>,
    pub title_confidence: u32,
    pub email_confidence: u32,
}

pub open spec fn source_name(i: int) -> Seq<char> {
    if i == 0 {
        "mock_apollo"@
    } else if i == 1 {
        "mock_hunter"@
    } else if i == 2 {
        "mock_clearbit"@
    } else {
        "mock_linkedin_scraper"@
    }
}

pub open spec fn source_latency_ms(i: int) -> u64 {
    if i == 0 {
        300
    } else if i == 1 {
        400
    } else if i == 2 {
        500
    } else {
        800
    }
}

pub open spec fn source_titles(i: int) -> Seq<Option<Seq<char>>> {
    if i == 0 {
        seq![Some("VP Growth"@), Some("Head of Marketing"@), Some("Director of Sales"@), None]
    } else if i == 1 {
        seq![None]
    } else if i == 2 {
        seq![Some("Chief Marketing Officer"@), Some("VP Marketing"@), None]
    } else {
        seq![Some("Head of Growth"@), Some("Senior Marketing Manager"@), Some("Growth Lead"@), None]
    }
}

pub open spec fn source_emails(i: int) -> Seq<Option<Seq<char>>> {
    if i == 0 {
        seq![Some("person@company.com"@), None]
    } else if i == 1 {
        seq![Some("person@company.com"@), Some("alt@company.io"@), None]
    } else if i == 2 {
        seq![Some("person@company.com"@), None]
    } else {
        seq![None]
    }
}

pub open spec fn source_title_confidence(i: int) -> u32 {
    if i == 0 {
        60
    } else if i == 1 {
        0
    } else if i == 2 {
        80
    } else {
        85
    }
}

pub open spec fn source_email_confidence(i: int) -> u32 {
    if i == 0 {
        55
    } else if i == 1 {
        75
    } else if i == 2 {
        70
    } else {
        0
    }
}

/// The mock source at position `i` of the waterfall.
pub fn mock_source(i: usize) -> (src: MockSource)
    requires
        i < MOCK_SOURCE_COUNT,
    ensures
        src.name@ == source_name(i as int),
        src.latency_ms == source_latency_ms(i as int),
        pool_view(src.titles@) == source_titles(i as int),
        pool_view(src.emails@) == source_emails(i as int),
        src.title_confidence == source_title_confidence(i as int),
        src.email_confidence == source_email_confidence(i as int),
{
    let src = if i == 0 {
        MockSource {
            name: "mock_apollo",
            latency_ms: 300,
            titles: vec![Some("VP Growth"), Some("Head of Marketing"), Some("Director of Sales"), None],
            emails: vec![Some("person@company.com"), None],
            title_confidence: 60,
            email_confidence: 55,
        }
    } else if i == 1 {
        MockSource {
            name: "mock_hunter",
            latency_ms: 400,
            titles: vec![None],
            emails: vec![Some("person@company.com"), Some("alt@company.io"), None],
            title_confidence: 0,
            email_confidence: 75,
        }
    } else if i == 2 {
        MockSource {
            name: "mock_clearbit",
            latency_ms: 500,
            titles: vec![Some("Chief Marketing Officer"), Some("VP Marketing"), None],
            emails: vec![Some("person@company.com"), None],
            title_confidence: 80,
            email_confidence: 70,
        }
    } else {
        MockSource {
            name: "mock_linkedin_scraper",
            latency_ms: 800,
            titles: vec![Some("Head of Growth"), Some("Senior Marketing Manager"), Some("Growth Lead"), None],
            emails: vec![None],
            title_confidence: 85,
            email_confidence: 0,
        }
    };
    assert(pool_view(src.titles@) =~= source_titles(i as int));
    assert(pool_view(src.emails@) =~= source_emails(i as int));
    src
}

/// What waterfall source `i` records for the title and email it returned,
/// with its own name and confidences, title first.
pub fn waterfall_record(i: usize, title: Option<&str>, email: Option<&str>) -> (obs: Vec<NewObservation>)
    requires
        i < MOCK_SOURCE_COUNT,
    ensures
        observations_view(obs@) == recorded(
            source_name(i as int),
            opt_text(title),
            source_title_confidence(i as int),
            opt_text(email),
            source_email_confidence(i as int),
        ),
{
    let src = mock_source(i);
    record(src.name, title, src.title_confidence, email, src.email_confidence)
}

/// The idempotency key of a waterfall source for a lead.
pub open spec fn waterfall_key_of(lead_id: Seq<char>, source: Seq<char>) -> Seq<char> {
    lead_id + "-waterfall-"@ + source + "-v1"@
}

/// The idempotency key of a waterfall source:
/// `"<lead id>-waterfall-<source name>-v1"`.
pub fn waterfall_key(lead_id: &str, source_name: &str) -> (key: String)
    ensures
        key@ == waterfall_key_of(lead_id@, source_name@),
{
    let mut key = joined(lead_id, "-waterfall-");
    key.append(source_name);
    key.append("-v1");
    key
}

/// Some string in `v` has the text `s`.
pub open spec fn has_text(v: Seq<String>, s: Seq<char>) -> bool {
    exists|i: int| 0 <= i < v.len() && #[trigger] v[i]@ == s
}

/// Whether some string in `v` equals `s`.
pub fn contains_text(v: &Vec<String>, s: &String) -> (found: bool)
    ensures
        found == has_text(v@, s@),
{
    let n = v.len();
    let mut i: usize = 0;
    while i < n
        invariant
            n == v@.len(),
            i <= n,
            forall|k: int| 0 <= k < i ==> #[trigger] v@[k]@ != s@,
        decreases n - i,
    {
        if v[i] == *s {
            return true;
        }
        i = i + 1;
    }
    false
}

/// The target fields (title, then email) that `filled` does not hold yet.
pub open spec fn still_needed(filled: Seq<String>) -> Seq<Seq<char>> {
    (if has_text(filled, title_field()) { Seq::empty() } else { seq![title_field()] })
        + (if has_text(filled, email_field()) { Seq::empty() } else { seq![email_field()] })
}

/// The target fields that the observed fields `filled` do not cover yet, in
/// the order title, email.
pub fn fields_still_needed(filled: &Vec<String>) -> (needed: Vec<String>)
    ensures
        texts_view(needed@) == still_needed(filled@),
{
    let title = title_field_text();
    let email = email_field_text();
    let mut needed: Vec<String> = Vec::new();
    if !contains_text(filled, &title) {
        needed.push(title);
    }
    if !contains_text(filled, &email) {
        needed.push(email);
    }
    assert(texts_view(needed@) =~= still_needed(filled@));
    needed
}

/// Whether `needed` asks for `field`.
pub open spec fn wants(needed: Seq<Seq<char>>, field: Seq<char>) -> bool {
    needed.contains(field)
}

/// Where a waterfall run stands.
#[derive(Clone, Copy, PartialEq, Eq, Structural, Debug)]
pub enum WaterfallPhase {
    /// Waiting for the lead's observed fields.
    ReadingFields,
    /// Waiting to learn whether the current source already ran.
    LookingUpRun,
    /// Waiting for the run record of the current source to be created.
    CreatingRun,
    /// Waiting out the current source's latency.
    Waiting,
    /// Waiting for the source's observations to be stored.
    Recording,
    /// Done.
    Finished,
}

/// The waterfall stage of one lead: tries each mock source in priority order
/// and stops as soon as the lead has both a title and an email.
pub struct Waterfall {
    pub lead_id: String,
    /// The source being tried.
    pub source: usize,
    /// The fields still needed when the current source was considered.
    pub needed: Vec<String>,
    /// The idempotency key of the current source.
    pub key: String,
    pub phase: WaterfallPhase,
}

/// The state after the current source is done with (skipped or recorded).
pub open spec fn advanced(old: Waterfall, new: Waterfall, action: StageAction) -> bool {
    &&& new.lead_id@ == old.lead_id@
    &&& new.source == old.source + 1
    &&& if old.source + 1 < MOCK_SOURCE_COUNT {
        new.phase == WaterfallPhase::ReadingFields && action is ReadObservedFields
    } else {
        new.phase == WaterfallPhase::Finished && action is Finish
    }
}

impl Waterfall {
    /// The state is consistent: a running waterfall is at one of the sources,
    /// and its key is that source's key for the lead.
    pub open spec fn well_formed(self) -> bool {
        &&& self.phase != WaterfallPhase::Finished ==> self.source < MOCK_SOURCE_COUNT
        &&& (self.phase != WaterfallPhase::Finished && self.phase != WaterfallPhase::ReadingFields)
            ==> self.key@ == waterfall_key_of(self.lead_id@, source_name(self.source as int))
    }

    /// Whether the state is consistent (see `well_formed`).
    pub fn is_well_formed(&self) -> (ok: bool)
        ensures
            ok == self.well_formed(),
    {
        if self.phase == WaterfallPhase::Finished {
            return true;
        }
        if self.source >= MOCK_SOURCE_COUNT {
            return false;
        }
        if self.phase == WaterfallPhase::ReadingFields {
            return true;
        }
        let src = mock_source(self.source);
        let key = waterfall_key(self.lead_id.as_str(), src.name);
        self.key == key
    }

    /// Whether the state expects `event` next.
    pub open spec fn expects(self, event: StageEvent) -> bool {
        match event {
            StageEvent::ObservedFields(_) => self.phase == WaterfallPhase::ReadingFields,
            StageEvent::RunLookedUp(_) => self.phase == WaterfallPhase::LookingUpRun,
            StageEvent::RunCreated => self.phase == WaterfallPhase::CreatingRun,
            StageEvent::Waited => self.phase == WaterfallPhase::Waiting,
            StageEvent::Recorded => self.phase == WaterfallPhase::Recording,
        }
    }

    /// Whether the state expects `event` next.
    pub fn expects_event(&self, event: &StageEvent) -> (ok: bool)
        ensures
            ok == self.expects(*event),
    {
        match event {
            StageEvent::ObservedFields(_) => self.phase == WaterfallPhase::ReadingFields,
            StageEvent::RunLookedUp(_) => self.phase == WaterfallPhase::LookingUpRun,
            StageEvent::RunCreated => self.phase == WaterfallPhase::CreatingRun,
            StageEvent::Waited => self.phase == WaterfallPhase::Waiting,
            StageEvent::Recorded => self.phase == WaterfallPhase::Recording,
        }
    }

    /// Start the waterfall for a lead at the first source: first read the
    /// lead's observed fields.
    pub fn start(lead_id: &str) -> (res: (Waterfall, StageAction))
        ensures
            res.0.well_formed(),
            res.0.lead_id@ == lead_id@,
            res.0.source == 0,
            res.0.phase == WaterfallPhase::ReadingFields,
            res.1 is ReadObservedFields,
    {
        let wf = Waterfall {
            lead_id: lead_id.to_owned(),
            source: 0,
            needed: Vec::new(),
            key: String::new(),
            phase: WaterfallPhase::ReadingFields,
        };
        (wf, StageAction::ReadObservedFields)
    }

    /// Move past the current source.
    fn advance(&mut self) -> (action: StageAction)
        requires
            old(self).source < MOCK_SOURCE_COUNT,
        ensures
            advanced(*old(self), *final(self), action),
            final(self).well_formed(),
    {
        self.source = self.source + 1;
        if self.source < MOCK_SOURCE_COUNT {
            self.phase = WaterfallPhase::ReadingFields;
            StageAction::ReadObservedFields
        } else {
            self.phase = WaterfallPhase::Finished;
            StageAction::Finish
        }
    }

    /// Take the caller's report of the last action and decide the next one.
    ///
    /// - Observed fields: if the lead has both a title and an email, finish;
    ///   otherwise remember what is needed and look up the current source's key.
    /// - Looked up: a source that already ran is skipped; otherwise create its run.
    /// - Run created: wait out the source's latency.
    /// - Waited: pick, for each needed field that the source can return, a
    ///   random answer from its pool, and record what was found; the run
    ///   succeeds when something was found.
    /// - Recorded: move to the next source, or finish after the last.
    pub fn step(&mut self, event: StageEvent) -> (action: StageAction)
        requires
            old(self).well_formed(),
            old(self).expects(event),
        ensures
            final(self).well_formed(),
            waterfall_step(*old(self), event, *final(self), action),
    {
        match event {
            StageEvent::ObservedFields(filled) => {
                let needed = fields_still_needed(&filled);
                if needed.len() == 0 {
                    self.phase = WaterfallPhase::Finished;
                    StageAction::Finish
                } else {
                    let src = mock_source(self.source);
                    let key = waterfall_key(self.lead_id.as_str(), src.name);
                    self.needed = needed;
                    self.key = key.clone();
                    self.phase = WaterfallPhase::LookingUpRun;
                    StageAction::LookUpRun { key }
                }
            },
            StageEvent::RunLookedUp(exists) => {
                if exists {
                    self.advance()
                } else {
                    self.phase = WaterfallPhase::CreatingRun;
                    StageAction::CreateRun { stage: "waterfall".to_owned(), key: self.key.clone() }
                }
            },
            StageEvent::RunCreated => {
                let src = mock_source(self.source);
                self.phase = WaterfallPhase::Waiting;
                StageAction::Wait { millis: src.latency_ms }
            },
            StageEvent::Waited => {
                let src = mock_source(self.source);
                let title = title_field_text();
                let email = email_field_text();
                let want_title = contains_text(&self.needed, &title) && src.title_confidence > 0;
                let want_email = contains_text(&self.needed, &email) && src.email_confidence > 0;
                proof {
                    lemma_has_text_wants(self.needed@, title_field());
                    lemma_has_text_wants(self.needed@, email_field());
                }
                let t = pick_if(&src.titles, want_title);
                let e = pick_if(&src.emails, want_email);
                let observations = waterfall_record(self.source, t, e);
                let success = t.is_some() || e.is_some();
                self.phase = WaterfallPhase::Recording;
                proof {
                    assert(waterfall_answer(
                        old(self).source as int,
                        texts_view(old(self).needed@),
                        opt_text(t),
                        opt_text(e),
                    ));
                }
                StageAction::Record { observations, success }
            },
            StageEvent::Recorded => self.advance(),
        }
    }
}

/// One step of the waterfall: from state `old`, on `event`, to state `new`
/// with next action `action` (see `Waterfall::step`).
pub open spec fn waterfall_step(old: Waterfall, event: StageEvent, new: Waterfall, action: StageAction) -> bool {
    match event {
        StageEvent::ObservedFields(filled) => {
            &&& new.lead_id@ == old.lead_id@
            &&& new.source == old.source
            &&& if still_needed(filled@).len() == 0 {
                new.phase == WaterfallPhase::Finished && action is Finish
            } else {
                &&& new.phase == WaterfallPhase::LookingUpRun
                &&& texts_view(new.needed@) == still_needed(filled@)
                &&& (action matches StageAction::LookUpRun { key } && key@
                    == waterfall_key_of(old.lead_id@, source_name(old.source as int)))
            }
        },
        StageEvent::RunLookedUp(exists) => if exists {
            advanced(old, new, action)
        } else {
            &&& new.lead_id == old.lead_id
            &&& new.source == old.source
            &&& new.needed == old.needed
            &&& new.phase == WaterfallPhase::CreatingRun
            &&& (action matches StageAction::CreateRun { stage, key } && stage@ == "waterfall"@
                && key@ == waterfall_key_of(old.lead_id@, source_name(old.source as int)))
        },
        StageEvent::RunCreated => {
            &&& new.lead_id == old.lead_id
            &&& new.source == old.source
            &&& new.needed == old.needed
            &&& new.phase == WaterfallPhase::Waiting
            &&& (action matches StageAction::Wait { millis } && millis == source_latency_ms(
                old.source as int,
            ))
        },
        StageEvent::Waited => {
            &&& new.lead_id == old.lead_id
            &&& new.source == old.source
            &&& new.needed == old.needed
            &&& new.phase == WaterfallPhase::Recording
            &&& action matches StageAction::Record { observations, success }
            &&& exists|t: Option<Seq<char>>, e: Option<Seq<char>>|
                #[trigger] waterfall_answer(old.source as int, texts_view(old.needed@), t, e)
                    && observations_view(observations@) == recorded(
                    source_name(old.source as int),
                    t,
                    source_title_confidence(old.source as int),
                    e,
                    source_email_confidence(old.source as int),
                ) && success == (t is Some || e is Some)
        },
        StageEvent::Recorded => advanced(old, new, action),
    }
}

/// The answers a waterfall source may give when `needed` fields are missing:
/// a field is asked for only if it is needed and the source can return it,
/// and the answer is one of the source's pool entries.
pub open spec fn waterfall_answer(i: int, needed: Seq<Seq<char>>, t: Option<Seq<char>>, e: Option<Seq<char>>) -> bool {
    &&& allowed_pick(source_titles(i), wants(needed, title_field()) && source_title_confidence(i) > 0, t)
    &&& allowed_pick(source_emails(i), wants(needed, email_field()) && source_email_confidence(i) > 0, e)
}

proof fn lemma_has_text_wants(v: Seq<String>, s: Seq<char>)
    ensures
        has_text(v, s) == wants(texts_view(v), s),
{
    if has_text(v, s) {
        let i = choose|i: int| 0 <= i < v.len() && #[trigger] v[i]@ == s;
        assert(texts_view(v)[i] == s);
    }
    if wants(texts_view(v), s) {
        let i = choose|i: int| 0 <= i < texts_view(v).len() && texts_view(v)[i] == s;
        assert(v[i]@ == s);
    }
}

// ---------------------------------------------------------------------------
// Stage 3: agent
// ---------------------------------------------------------------------------

/// Name the agent records its findings under.
pub open spec fn agent_source() -> Seq<char> {
    "mock_agent"@
}

/// How long the agent's deep research takes, in milliseconds.
pub const AGENT_LATENCY_MS: u64 = 1200;
/// Confidence of a title found by the agent (`0.9`).
pub const AGENT_TITLE_CONFIDENCE: u32 = 90;
/// Confidence of an email made up by the agent (`0.7`).
pub const AGENT_EMAIL_CONFIDENCE: u32 = 70;

/// The titles the agent may find.
pub open spec fn agent_titles() -> Seq<Option<Seq<char>>> {
    seq![
        Some("Chief Revenue Officer"@),
        Some("VP of Demand Generation"@),
        Some("Head of Growth Marketing"@),
        Some("Senior Director of Sales"@),
    ]
}

/// The idempotency key of the agent stage for a lead.
pub open spec fn agent_key_of(lead_id: Seq<char>) -> Seq<char> {
    lead_id + "-agent-v1"@
}

/// The idempotency key of the agent stage: `"<lead id>-agent-v1"`.
pub fn agent_key(lead_id: &str) -> (key: String)
    ensures
        key@ == agent_key_of(lead_id@),
{
    joined(lead_id, "-agent-v1")
}

/// The email the agent guesses for a person at a company: the lowercased name
/// with spaces turned into dots, `@`, the lowercased company without spaces,
/// and `.com`.
pub open spec fn agent_email_of(name: Seq<char>, company: Seq<char>) -> Seq<char> {
    replace_char(lowercase(name), ' ', "."@) + "@"@ + replace_char(lowercase(company), ' ', ""@) + ".com"@
}

/// The email the agent guesses: `"<name>@<company>.com"`, see `agent_email_of`.
pub fn agent_email(name: &str, company: &str) -> (email: String)
    ensures
        email@ == agent_email_of(name@, company@),
{
    let lower_name = to_lowercase(name);
    let lower_company = to_lowercase(company);
    let mut email = replace_char_with(lower_name.as_str(), ' ', ".");
    email.append("@");
    let domain = replace_char_with(lower_company.as_str(), ' ', "");
    email.append(domain.as_str());
    email.append(".com");
    email
}

/// What the agent records, given the fields already observed, the title it
/// found and the email it guessed: each field that is not observed yet, title
/// first.
pub open spec fn agent_recorded(filled: Seq<String>, title: Seq<char>, email: Seq<char>) -> Seq<(Seq<char>, Seq<char>, Seq<char>, u32)> {
    recorded(
        agent_source(),
        if has_text(filled, title_field()) { None } else { Some(title) },
        AGENT_TITLE_CONFIDENCE,
        if has_text(filled, email_field()) { None } else { Some(email) },
        AGENT_EMAIL_CONFIDENCE,
    )
}

/// What the agent records for a lead with observed fields `filled`, given the
/// title it found (used only when no title is observed yet): a title and the
/// guessed email for whichever of the two is still missing, title first.
pub fn agent_findings(filled: &Vec<String>, title: &str, name: &str, company: &str) -> (obs: Vec<NewObservation>)
    ensures
        observations_view(obs@) == agent_recorded(filled@, title@, agent_email_of(name@, company@)),
{
    let has_title = contains_text(filled, &title_field_text());
    let has_email = contains_text(filled, &email_field_text());
    let email = agent_email(name, company);
    let t = if has_title { None } else { Some(title) };
    let e = if has_email { None } else { Some(email.as_str()) };
    record("mock_agent", t, AGENT_TITLE_CONFIDENCE, e, AGENT_EMAIL_CONFIDENCE)
}

/// Where an agent stage stands.
#[derive(Clone, Copy, PartialEq, Eq, Structural, Debug)]
pub enum AgentPhase {
    /// Waiting to learn whether the agent already ran for the lead.
    LookingUpRun,
    /// Waiting for the run record to be created.
    CreatingRun,
    /// Waiting out the research time.
    Waiting,
    /// Waiting for the lead's observed fields.
    ReadingFields,
    /// Waiting for the findings to be stored.
    Recording,
    /// Done.
    Finished,
}

/// The agent stage of one lead: an expensive deep-research pass that fills
/// every field still missing.
pub struct Agent {
    pub lead_id: String,
    pub lead_name: String,
    pub lead_company: String,
    pub phase: AgentPhase,
}

impl Agent {
    /// Whether the state expects `event` next.
    pub open spec fn expects(self, event: StageEvent) -> bool {
        match event {
            StageEvent::RunLookedUp(_) => self.phase == AgentPhase::LookingUpRun,
            StageEvent::RunCreated => self.phase == AgentPhase::CreatingRun,
            StageEvent::Waited => self.phase == AgentPhase::Waiting,
            StageEvent::ObservedFields(_) => self.phase == AgentPhase::ReadingFields,
            StageEvent::Recorded => self.phase == AgentPhase::Recording,
        }
    }

    /// Whether the state expects `event` next.
    pub fn expects_event(&self, event: &StageEvent) -> (ok: bool)
        ensures
            ok == self.expects(*event),
    {
        match event {
            StageEvent::RunLookedUp(_) => self.phase == AgentPhase::LookingUpRun,
            StageEvent::RunCreated => self.phase == AgentPhase::CreatingRun,
            StageEvent::Waited => self.phase == AgentPhase::Waiting,
            StageEvent::ObservedFields(_) => self.phase == AgentPhase::ReadingFields,
            StageEvent::Recorded => self.phase == AgentPhase::Recording,
        }
    }

    /// Start the agent stage: first look up whether it already ran.
    pub fn start(lead_id: &str, lead_name: &str, lead_company: &str) -> (res: (Agent, StageAction))
        ensures
            res.0.lead_id@ == lead_id@,
            res.0.lead_name@ == lead_name@,
            res.0.lead_company@ == lead_company@,
            res.0.phase == AgentPhase::LookingUpRun,
            res.1 matches StageAction::LookUpRun { key } && key@ == agent_key_of(lead_id@),
    {
        let agent = Agent {
            lead_id: lead_id.to_owned(),
            lead_name: lead_name.to_owned(),
            lead_company: lead_company.to_owned(),
            phase: AgentPhase::LookingUpRun,
        };
        (agent, StageAction::LookUpRun { key: agent_key(lead_id) })
    }

    /// Take the caller's report of the last action and decide the next one:
    /// stop if the agent already ran; otherwise create the run, wait, read the
    /// observed fields, and record a title (picked from the agent's pool) and a
    /// guessed email for whichever of the two is still missing; the run always
    /// succeeds.
    pub fn step(&mut self, event: StageEvent) -> (action: StageAction)
        requires
            old(self).expects(event),
        ensures
            final(self).lead_id == old(self).lead_id,
            final(self).lead_name == old(self).lead_name,
            final(self).lead_company == old(self).lead_company,
            match event {
                StageEvent::RunLookedUp(exists) => if exists {
                    final(self).phase == AgentPhase::Finished && action is Finish
                } else {
                    final(self).phase == AgentPhase::CreatingRun && (action matches StageAction::CreateRun {
                        stage,
                        key,
                    } && stage@ == "agent"@ && key@ == agent_key_of(old(self).lead_id@))
                },
                StageEvent::RunCreated => final(self).phase == AgentPhase::Waiting && (action matches StageAction::Wait {
                    millis,
                } && millis == AGENT_LATENCY_MS),
                StageEvent::Waited => final(self).phase == AgentPhase::ReadingFields
                    && action is ReadObservedFields,
                StageEvent::ObservedFields(filled) => {
                    &&& final(self).phase == AgentPhase::Recording
                    &&& action matches StageAction::Record { observations, success }
                    &&& success
                    &&& exists|t: Seq<char>|
                        #[trigger] agent_titles().contains(Some(t)) && observations_view(observations@)
                            == agent_recorded(
                            filled@,
                            t,
                            agent_email_of(old(self).lead_name@, old(self).lead_company@),
                        )
                },
                StageEvent::Recorded => final(self).phase == AgentPhase::Finished && action is Finish,
            },
    {
        match event {
            StageEvent::RunLookedUp(exists) => {
                if exists {
                    self.phase = AgentPhase::Finished;
                    StageAction::Finish
                } else {
                    self.phase = AgentPhase::CreatingRun;
                    StageAction::CreateRun {
                        stage: "agent".to_owned(),
                        key: agent_key(self.lead_id.as_str()),
                    }
                }
            },
            StageEvent::RunCreated => {
                self.phase = AgentPhase::Waiting;
                StageAction::Wait { millis: AGENT_LATENCY_MS }
            },
            StageEvent::Waited => {
                self.phase = AgentPhase::ReadingFields;
                StageAction::ReadObservedFields
            },
            StageEvent::ObservedFields(filled) => {
                let observations = self.findings(&filled);
                self.phase = AgentPhase::Recording;
                StageAction::Record { observations, success: true }
            },
            StageEvent::Recorded => {
                self.phase = AgentPhase::Finished;
                StageAction::Finish
            },
        }
    }

    /// The agent's findings for the fields not in `filled`.
    fn findings(&self, filled: &Vec<String>) -> (observations: Vec<NewObservation>)
        ensures
            exists|t: Seq<char>|
                #[trigger] agent_titles().contains(Some(t)) && observations_view(observations@)
                    == agent_recorded(filled@, t, agent_email_of(self.lead_name@, self.lead_company@)),
    {
        let need_title = !contains_text(filled, &title_field_text());
        let pool: Vec<Option<&'static str>> = vec![
            Some("Chief Revenue Officer"),
            Some("VP of Demand Generation"),
            Some("Head of Growth Marketing"),
            Some("Senior Director of Sales"),
        ];
        assert(pool_view(pool@) =~= agent_titles());
        // The pool holds no "nothing found" entry, so a needed title is always found.
        let found = pick_if(&pool, need_title);
        proof {
            if need_title {
                let k = choose|k: int| 0 <= k < agent_titles().len() && agent_titles()[k] == opt_text(found);
                assert(agent_titles()[k] is Some);
                assert(agent_titles().contains(opt_text(found)));
            } else {
                assert(agent_titles()[0] == Some("Chief Revenue Officer"@));
            }
        }
        let title: &str = match found {
            Some(t) => t,
            None => "",
        };
        let observations = agent_findings(filled, title, self.lead_name.as_str(), self.lead_company.as_str());
        proof {
            let email = agent_email_of(self.lead_name@, self.lead_company@);
            if need_title {
                assert(agent_titles().contains(Some(title@)));
            } else {
                assert(agent_titles().contains(Some("Chief Revenue Officer"@)));
                assert(agent_recorded(filled@, title@, email) == agent_recorded(
                    filled@,
                    "Chief Revenue Officer"@,
                    email,
                ));
            }
        }
        observations
    }
}

// ---------------------------------------------------------------------------
// Laws
// ---------------------------------------------------------------------------

/// The fields that a list of recorded observations is about.
pub open spec fn recorded_fields(obs: Seq<(Seq<char>, Seq<char>, Seq<char>, u32)>) -> Seq<Seq<char>> {
    obs.map_values(|o: (Seq<char>, Seq<char>, Seq<char>, u32)| o.0)
}

/// Every stage execution of a lead has its own idempotency key: the shallow
/// key, the agent key and the keys of the four waterfall sources are pairwise
/// different, so the idempotency guard of one never skips another.
pub proof fn lemma_stage_keys_distinct(lead_id: Seq<char>, i: int, j: int)
    requires
        0 <= i < MOCK_SOURCE_COUNT,
        0 <= j < MOCK_SOURCE_COUNT,
        i != j,
    ensures
        waterfall_key_of(lead_id, source_name(i)) != waterfall_key_of(lead_id, source_name(j)),
        waterfall_key_of(lead_id, source_name(i)) != shallow_key_of(lead_id),
        waterfall_key_of(lead_id, source_name(i)) != agent_key_of(lead_id),
        shallow_key_of(lead_id) != agent_key_of(lead_id),
{
    reveal_strlit("-shallow-v1");
    reveal_strlit("-agent-v1");
    reveal_strlit("-waterfall-");
    reveal_strlit("-v1");
    reveal_strlit("mock_apollo");
    reveal_strlit("mock_hunter");
    reveal_strlit("mock_clearbit");
    reveal_strlit("mock_linkedin_scraper");
    let n: int = lead_id.len() as int;
    let ki = waterfall_key_of(lead_id, source_name(i));
    let kj = waterfall_key_of(lead_id, source_name(j));
    if (i == 0 && j == 1) || (i == 1 && j == 0) {
        assert(ki[n + 16] != kj[n + 16]);
    } else {
        assert(ki.len() != kj.len());
    }
    assert(ki.len() != shallow_key_of(lead_id).len());
    assert(ki.len() != agent_key_of(lead_id).len());
    assert(shallow_key_of(lead_id).len() != agent_key_of(lead_id).len());
}

/// A waterfall source only ever records fields that were still needed when it
/// was asked: it never adds a second title or email to a lead that has one.
pub proof fn lemma_waterfall_records_only_needed(
    i: int,
    needed: Seq<Seq<char>>,
    t: Option<Seq<char>>,
    e: Option<Seq<char>>,
)
    requires
        0 <= i < MOCK_SOURCE_COUNT,
        waterfall_answer(i, needed, t, e),
    ensures
        forall|k: int|
            0 <= k < recorded_fields(
                recorded(source_name(i), t, source_title_confidence(i), e, source_email_confidence(i)),
            ).len() ==> needed.contains(
                #[trigger] recorded_fields(
                    recorded(source_name(i), t, source_title_confidence(i), e, source_email_confidence(i)),
                )[k],
            ),
{
    let r = recorded(source_name(i), t, source_title_confidence(i), e, source_email_confidence(i));
    assert forall|k: int| 0 <= k < recorded_fields(r).len() implies needed.contains(
        #[trigger] recorded_fields(r)[k],
    ) by {
        if t is Some && k == 0 {
            assert(recorded_fields(r)[k] == title_field());
        } else {
            assert(recorded_fields(r)[k] == email_field());
        }
    }
}

/// After the agent has recorded its findings, the lead has both a title and
/// an email: together with the fields observed before, the agent's records
/// cover every target field.
pub proof fn lemma_agent_fills_all(filled: Seq<String>, title: Seq<char>, email: Seq<char>)
    ensures
        has_text(filled, title_field()) || recorded_fields(agent_recorded(filled, title, email)).contains(
            title_field(),
        ),
        has_text(filled, email_field()) || recorded_fields(agent_recorded(filled, title, email)).contains(
            email_field(),
        ),
{
    let r = agent_recorded(filled, title, email);
    if !has_text(filled, title_field()) {
        assert(recorded_fields(r)[0] == title_field());
    }
    if !has_text(filled, email_field()) {
        let k = recorded_fields(r).len() - 1;
        assert(recorded_fields(r)[k] == email_field());
    }
}

/// A run of the waterfall: `states[k]` steps on `events[k]` to `states[k + 1]`
/// with action `actions[k]`, each step taken as `Waterfall::step` allows.
pub open spec fn waterfall_trace(states: Seq<Waterfall>, events: Seq<StageEvent>, actions: Seq<StageAction>) -> bool {
    &&& states.len() == events.len() + 1
    &&& actions.len() == events.len()
    &&& forall|k: int|
        #![trigger actions[k]]
        0 <= k < events.len() ==> states[k].well_formed() && states[k].expects(events[k]) && waterfall_step(
            states[k],
            events[k],
            states[k + 1],
            actions[k],
        )
}

proof fn lemma_recorded_source(
    source: Seq<char>,
    title: Option<Seq<char>>,
    tc: u32,
    email: Option<Seq<char>>,
    ec: u32,
)
    ensures
        forall|j: int|
            0 <= j < recorded(source, title, tc, email, ec).len() ==> (#[trigger] recorded(
                source,
                title,
                tc,
                email,
                ec,
            )[j]).2 == source,
{
}

/// The four source names differ from one another.
proof fn lemma_source_names_distinct(i: int, j: int)
    requires
        0 <= i < MOCK_SOURCE_COUNT,
        0 <= j < MOCK_SOURCE_COUNT,
        i != j,
    ensures
        source_name(i) != source_name(j),
{
    reveal_strlit("mock_apollo");
    reveal_strlit("mock_hunter");
    reveal_strlit("mock_clearbit");
    reveal_strlit("mock_linkedin_scraper");
    if (i == 0 && j == 1) || (i == 1 && j == 0) {
        assert(source_name(i)[5] != source_name(j)[5]);
    } else {
        assert(source_name(i).len() != source_name(j).len());
    }
}

/// Along a waterfall run the lead stays the same and the source never moves
/// back.
proof fn lemma_trace_monotone(states: Seq<Waterfall>, events: Seq<StageEvent>, actions: Seq<StageAction>, a: int, b: int)
    requires
        waterfall_trace(states, events, actions),
        0 <= a <= b < states.len(),
    ensures
        states[a].source <= states[b].source,
        states[b].lead_id@ == states[a].lead_id@,
    decreases b - a,
{
    if a < b {
        lemma_trace_monotone(states, events, actions, a, b - 1);
        let k = b - 1;
        assert(waterfall_step(states[k], events[k], states[k + 1], actions[k])) by {
            let _ = actions[k];
        }
    }
}

/// A waterfall source whose run already exists is skipped for good: once the
/// lookup of its key reports an existing run, no later step of the stage
/// creates a run with that key or records an observation from that source.
/// (Each later step is about a later source, and source names and keys
/// differ.)
pub proof fn lemma_waterfall_skip_is_final(
    states: Seq<Waterfall>,
    events: Seq<StageEvent>,
    actions: Seq<StageAction>,
    k: int,
)
    requires
        waterfall_trace(states, events, actions),
        0 <= k < events.len(),
        events[k] == StageEvent::RunLookedUp(true),
    ensures
        forall|m: int|
            #![trigger actions[m]]
            k < m < events.len() ==> {
                &&& !(actions[m] matches StageAction::CreateRun { stage, key } && key@ == waterfall_key_of(
                    states[k].lead_id@,
                    source_name(states[k].source as int),
                ))
                &&& (actions[m] matches StageAction::Record { observations, success } ==> forall|j: int|
                    0 <= j < observations@.len() ==> (#[trigger] observations@[j]).source@ != source_name(
                        states[k].source as int,
                    ))
            },
{
    let _ = actions[k];
    let s = states[k].source as int;
    let lead = states[k].lead_id@;
    assert(s < MOCK_SOURCE_COUNT);
    assert(states[k + 1].source == s + 1);
    assert forall|m: int|
        #![trigger actions[m]]
        k < m < events.len() implies {
            &&& !(actions[m] matches StageAction::CreateRun { stage, key } && key@ == waterfall_key_of(
                lead,
                source_name(s),
            ))
            &&& (actions[m] matches StageAction::Record { observations, success } ==> forall|j: int|
                0 <= j < observations@.len() ==> (#[trigger] observations@[j]).source@ != source_name(s))
        } by {
        lemma_trace_monotone(states, events, actions, k + 1, m);
        let sm = states[m].source as int;
        let old = states[m];
        assert(waterfall_step(old, events[m], states[m + 1], actions[m]));
        match actions[m] {
            StageAction::CreateRun { stage, key } => {
                assert(events[m] matches StageEvent::RunLookedUp(false));
                assert(sm < MOCK_SOURCE_COUNT);
                lemma_stage_keys_distinct(lead, s, sm);
            },
            StageAction::Record { observations, success } => {
                assert(events[m] is Waited);
                assert(sm < MOCK_SOURCE_COUNT);
                lemma_source_names_distinct(s, sm);
                let (t, e) = choose|t: Option<Seq<char>>, e: Option<Seq<char>>|
                    #[trigger] waterfall_answer(sm, texts_view(old.needed@), t, e) && observations_view(
                        observations@,
                    ) == recorded(
                        source_name(sm),
                        t,
                        source_title_confidence(sm),
                        e,
                        source_email_confidence(sm),
                    ) && success == (t is Some || e is Some);
                lemma_recorded_source(source_name(sm), t, source_title_confidence(sm), e, source_email_confidence(sm));
                assert forall|j: int| 0 <= j < observations@.len() implies (#[trigger] observations@[j]).source@
                    != source_name(s) by {
                    assert(observations_view(observations@)[j] == observations@[j]@);
                }
            },
            _ => {},
        }
    }
}

/// When the lead's observed fields are reported, the waterfall finishes
/// exactly when both a title and an email have been observed; while either is
/// missing it consults the current source, looking up that source's key.
pub proof fn lemma_waterfall_stops_only_when_filled(
    old: Waterfall,
    filled: Vec<String>,
    new: Waterfall,
    action: StageAction,
)
    requires
        old.well_formed(),
        old.phase == WaterfallPhase::ReadingFields,
        waterfall_step(old, StageEvent::ObservedFields(filled), new, action),
    ensures
        (action is Finish) <==> ((exists|i: int| 0 <= i < filled@.len() && #[trigger] filled@[i]@ == "title"@)
            && (exists|j: int| 0 <= j < filled@.len() && #[trigger] filled@[j]@ == "email"@)),
        !(action is Finish) ==> (action matches StageAction::LookUpRun { key } && key@ == old.lead_id@
            + "-waterfall-"@ + source_name(old.source as int) + "-v1"@),
{
    reveal_strlit("title");
    reveal_strlit("email");
    assert(title_field() =~= "title"@);
    assert(email_field() =~= "email"@);
    let v = filled@;
    if has_text(v, title_field()) && has_text(v, email_field()) {
        assert(still_needed(v) =~= Seq::<Seq<char>>::empty());
    } else if has_text(v, title_field()) {
        assert(still_needed(v).len() == 1);
    } else {
        assert(still_needed(v)[0] == title_field());
    }
}

/// The email the agent guesses holds no space, whatever the name and company.
pub proof fn lemma_agent_email_has_no_space(name: Seq<char>, company: Seq<char>)
    ensures
        !agent_email_of(name, company).contains(' '),
{
    reveal_strlit(".");
    reveal_strlit("");
    reveal_strlit("@");
    reveal_strlit(".com");
    let dot = "."@;
    let none = ""@;
    assert(!dot.contains(' ')) by {
        assert forall|k: int| 0 <= k < dot.len() implies dot[k] != ' ' by {}
    }
    assert(!none.contains(' '));
    crate::text::lemma_replace_removes_all(lowercase(name), ' ', dot);
    crate::text::lemma_replace_removes_all(lowercase(company), ' ', none);
    let p1 = replace_char(lowercase(name), ' ', dot);
    let p2 = "@"@;
    let p3 = replace_char(lowercase(company), ' ', none);
    let p4 = ".com"@;
    let e = p1 + p2 + p3 + p4;
    assert forall|k: int| 0 <= k < e.len() implies e[k] != ' ' by {
        if k < p1.len() {
            assert(e[k] == p1[k]);
        } else if k < p1.len() + p2.len() {
            assert(e[k] == p2[k - p1.len()]);
        } else if k < p1.len() + p2.len() + p3.len() {
            assert(e[k] == p3[k - p1.len() - p2.len()]);
        } else {
            assert(e[k] == p4[k - p1.len() - p2.len() - p3.len()]);
        }
    }
}

/// The agent adds exactly the missing fields: a title (confidence 0.9) when
/// no `"title"` is observed yet, then the guessed email (confidence 0.7) when
/// no `"email"` is, and nothing else.
pub proof fn lemma_agent_adds_missing(filled: Seq<String>, title: Seq<char>, email: Seq<char>)
    ensures
        ({
            let has_t = exists|i: int| 0 <= i < filled.len() && #[trigger] filled[i]@ == "title"@;
            let has_e = exists|i: int| 0 <= i < filled.len() && #[trigger] filled[i]@ == "email"@;
            let t: Seq<(Seq<char>, Seq<char>, Seq<char>, u32)> = if has_t {
                Seq::empty()
            } else {
                seq![("title"@, title, "mock_agent"@, 90u32)]
            };
            let e: Seq<(Seq<char>, Seq<char>, Seq<char>, u32)> = if has_e {
                Seq::empty()
            } else {
                seq![("email"@, email, "mock_agent"@, 70u32)]
            };
            agent_recorded(filled, title, email) == t + e
        }),
{
    reveal_strlit("title");
    reveal_strlit("email");
    assert(title_field() =~= "title"@);
    assert(email_field() =~= "email"@);
    let r = agent_recorded(filled, title, email);
    let has_t = exists|i: int| 0 <= i < filled.len() && #[trigger] filled[i]@ == "title"@;
    let has_e = exists|i: int| 0 <= i < filled.len() && #[trigger] filled[i]@ == "email"@;
    let t: Seq<(Seq<char>, Seq<char>, Seq<char>, u32)> = if has_t {
        Seq::empty()
    } else {
        seq![("title"@, title, "mock_agent"@, 90u32)]
    };
    let e: Seq<(Seq<char>, Seq<char>, Seq<char>, u32)> = if has_e {
        Seq::empty()
    } else {
        seq![("email"@, email, "mock_agent"@, 70u32)]
    };
    assert(has_text(filled, title_field()) == has_t);
    assert(has_text(filled, email_field()) == has_e);
    assert(r =~= t + e);
}

} // verus!
