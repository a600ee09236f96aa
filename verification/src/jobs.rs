//! The job queue's rules: what a new job holds, which jobs have a handler, and
//! what happens to a job that failed.
//!
//! A job is stored as a record under `"job:<id>"`; new jobs get three retries.
//! A failed job with retries left is retried after `2^attempt` seconds, where
//! `attempt` counts the retries already made; a failed job without retries
//! left fails for good.

use vstd::prelude::*;
use vstd::arithmetic::power2::{pow2, lemma_pow2_unfold, lemma_pow2_strictly_increases, lemma2_to64};
use crate::error::PipelineError;
use crate::ids::{is_uuid_v4_text, new_uuid_v4};

verus! {

/// How many retries a new job gets.
pub const DEFAULT_RETRIES: i32 = 3;

/// The largest attempt number whose backoff `2^attempt` fits an `i32`.
pub const MAX_BACKOFF_ATTEMPT: i32 = 30;

/// The key of a job's record.
pub open spec fn job_key_of(job_id: Seq<char>) -> Seq<char> {
    "job:"@ + job_id
}

/// The key of a job's record: `"job:<id>"`.
pub fn job_key(job_id: &str) -> (key: String)
    ensures
        key@ == job_key_of(job_id@),
{
    let mut key = "job:".to_owned();
    key.append(job_id);
    key
}

/// The record of a job on the queue.
pub struct JobRecord {
    pub id: String,
    pub key: String,
    pub func: String,
    pub args: String,
    pub retries_left: i32,
    pub max_retries: i32,
    pub status: String,
}

impl JobRecord {
    /// A new queued job for task `func_name` with JSON arguments `args`: a
    /// fresh UUID, its record key, and three retries.
    pub fn new(func_name: &str, args: &str) -> (job: JobRecord)
        ensures
            is_uuid_v4_text(job.id@),
            job.key@ == job_key_of(job.id@),
            job.func@ == func_name@,
            job.args@ == args@,
            job.retries_left == DEFAULT_RETRIES,
            job.max_retries == DEFAULT_RETRIES,
            job.status@ == "queued"@,
    {
        let id = new_uuid_v4();
        let key = job_key(id.as_str());
        JobRecord {
            id,
            key,
            func: func_name.to_owned(),
            args: args.to_owned(),
            retries_left: DEFAULT_RETRIES,
            max_retries: DEFAULT_RETRIES,
            status: "queued".to_owned(),
        }
    }
}

/// The task a job runs.
pub enum JobTask {
    /// Process one lead; `args` is the JSON payload.
    ProcessLead { args: String },
}

/// The only task a handler is registered for.
pub open spec fn process_lead_task() -> Seq<char> {
    "process_lead"@
}

/// Find the handler of a job from the task name and arguments in its record.
/// A job without a task name, or with a name that has no handler, is refused;
/// missing arguments default to `"{}"`.
pub fn resolve_job(job_id: &str, func: Option<&String>, args: Option<&String>) -> (res: Result<JobTask, PipelineError>)
    ensures
        match func {
            None => res matches Err(PipelineError::MissingTaskName(id)) && id@ == job_id@,
            Some(f) => if f@ == process_lead_task() {
                res matches Ok(JobTask::ProcessLead { args: a }) && a@ == match args {
                    Some(x) => x@,
                    None => "{}"@,
                }
            } else {
                res matches Err(PipelineError::UnknownTask(name)) && name@ == f@
            },
        },
{
    match func {
        None => Err(PipelineError::MissingTaskName(job_id.to_owned())),
        Some(f) => {
            let handled = "process_lead".to_owned();
            if *f == handled {
                let a = match args {
                    Some(x) => x.clone(),
                    None => "{}".to_owned(),
                };
                Ok(JobTask::ProcessLead { args: a })
            } else {
                Err(PipelineError::UnknownTask(f.clone()))
            }
        },
    }
}

/// What to do with a job that failed.
pub enum FailureAction {
    /// Retry after `delay_secs` seconds, with `retries_left` retries left
    /// afterwards; `attempt` is the number of retries made before this one.
    Retry { attempt: i32, delay_secs: i32, retries_left: i32 },
    /// No retries left: the job fails for good and goes to the dead letter queue.
    Fail,
}

/// The backoff before retry number `attempt + 1`, in seconds.
pub open spec fn backoff_secs(attempt: int) -> int {
    pow2(attempt as nat) as int
}

/// Whether a failure with these counters can be handled without overflow:
/// the attempt number `max_retries - retries_left` of a job with retries left
/// must be between 0 and 30.
pub open spec fn failure_in_range(retries_left: int, max_retries: int) -> bool {
    retries_left > 0 ==> 0 <= max_retries - retries_left <= MAX_BACKOFF_ATTEMPT
}

/// The backoff `2^attempt` seconds.
fn backoff(attempt: i32) -> (delay: i32)
    requires
        0 <= attempt <= MAX_BACKOFF_ATTEMPT,
    ensures
        delay == backoff_secs(attempt as int),
{
    proof {
        lemma2_to64();
        if attempt < 30 {
            lemma_pow2_strictly_increases(attempt as nat, 30);
        }
    }
    let mut delay: i32 = 1;
    let mut k: i32 = 0;
    while k < attempt
        invariant
            0 <= k <= attempt <= 30,
            delay == pow2(k as nat),
            pow2(attempt as nat) <= 0x4000_0000,
        decreases attempt - k,
    {
        proof {
            lemma_pow2_unfold((k + 1) as nat);
            if k + 1 < attempt {
                lemma_pow2_strictly_increases((k + 1) as nat, attempt as nat);
            }
        }
        delay = delay * 2;
        k = k + 1;
    }
    delay
}

/// Decide what happens to a failed job from its retry counters: with retries
/// left, retry after an exponential backoff of `2^attempt` seconds where
/// `attempt = max_retries - retries_left`, using up one retry; otherwise fail.
pub fn failure_action(retries_left: i32, max_retries: i32) -> (action: FailureAction)
    requires
        failure_in_range(retries_left as int, max_retries as int),
    ensures
        retries_left > 0 ==> (action matches FailureAction::Retry { attempt, delay_secs, retries_left: left }
            && attempt == max_retries - retries_left && delay_secs == backoff_secs(attempt as int) && left
            == retries_left - 1),
        retries_left <= 0 ==> action is Fail,
{
    if retries_left > 0 {
        let attempt = max_retries - retries_left;
        let delay_secs = backoff(attempt);
        FailureAction::Retry { attempt, delay_secs, retries_left: retries_left - 1 }
    } else {
        FailureAction::Fail
    }
}

/// Every retry waits twice as long as the one before it.
pub proof fn lemma_backoff_doubles(attempt: int)
    requires
        attempt >= 0,
    ensures
        backoff_secs(attempt + 1) == 2 * backoff_secs(attempt),
        backoff_secs(0) == 1,
{
    lemma_pow2_unfold((attempt + 1) as nat);
    lemma2_to64();
}

} // verus!
