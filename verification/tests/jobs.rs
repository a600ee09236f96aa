use leadintel::error::PipelineError;
use leadintel::jobs::{failure_action, job_key, resolve_job, FailureAction, JobRecord, JobTask};

#[test]
fn new_job_is_queued_with_three_retries() {
    let job = JobRecord::new("process_lead", "{\"lead_id\":\"x\"}");
    assert_eq!(job.id.len(), 36);
    assert_eq!(job.key, format!("job:{}", job.id));
    assert_eq!(job.func, "process_lead");
    assert_eq!(job.args, "{\"lead_id\":\"x\"}");
    assert_eq!(job.retries_left, 3);
    assert_eq!(job.max_retries, 3);
    assert_eq!(job.status, "queued");
}

#[test]
fn job_key_prefixes_id() {
    assert_eq!(job_key("abc"), "job:abc");
}

#[test]
fn process_lead_jobs_are_handled() {
    let func = "process_lead".to_string();
    let args = "{\"lead_id\":\"l1\"}".to_string();
    match resolve_job("j1", Some(&func), Some(&args)) {
        Ok(JobTask::ProcessLead { args: a }) => assert_eq!(a, args),
        _ => panic!("process_lead must have a handler"),
    }
    match resolve_job("j1", Some(&func), None) {
        Ok(JobTask::ProcessLead { args: a }) => assert_eq!(a, "{}"),
        _ => panic!("process_lead must have a handler"),
    }
}

#[test]
fn unknown_task_is_refused() {
    let func = "send_email".to_string();
    match resolve_job("j1", Some(&func), None) {
        Err(PipelineError::UnknownTask(name)) => assert_eq!(name, "send_email"),
        _ => panic!("no handler is registered for send_email"),
    }
}

#[test]
fn job_without_task_is_refused() {
    match resolve_job("j9", None, None) {
        Err(PipelineError::MissingTaskName(id)) => assert_eq!(id, "j9"),
        _ => panic!("a job without a task name is refused"),
    }
}

#[test]
fn retries_back_off_exponentially_then_fail() {
    let mut retries = 3;
    let mut delays = Vec::new();
    loop {
        match failure_action(retries, 3) {
            FailureAction::Retry { attempt, delay_secs, retries_left } => {
                assert_eq!(attempt, 3 - retries);
                assert_eq!(retries_left, retries - 1);
                delays.push(delay_secs);
                retries = retries_left;
            }
            FailureAction::Fail => break,
        }
    }
    assert_eq!(delays, vec![1, 2, 4]);
    assert_eq!(retries, 0);
}

#[test]
fn largest_backoff_fits() {
    match failure_action(1, 31) {
        FailureAction::Retry { attempt, delay_secs, .. } => {
            assert_eq!(attempt, 30);
            assert_eq!(delay_secs, 1 << 30);
        }
        FailureAction::Fail => panic!("a job with retries left is retried"),
    }
}

#[test]
fn no_retries_left_fails() {
    assert!(matches!(failure_action(0, 3), FailureAction::Fail));
    assert!(matches!(failure_action(-2, 3), FailureAction::Fail));
}
