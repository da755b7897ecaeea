use zkvm_eval::job::{
    classify_status, JobState, PollPolicy, ProvingJob, StatusReply, Verdict, POLL_INTERVAL_MILLIS,
};
use zkvm_eval::EvalError;

fn reply(status: &str) -> StatusReply {
    StatusReply { status: status.to_string(), error_msg: None, output: None }
}

/// A service that says `RUNNING` `n` times and then `last`, polled the way
/// the harness polls: returns the sleeps taken, in milliseconds, and the
/// verdict that ended the loop.
fn poll_to_the_end(job: &mut ProvingJob, n: usize, last: StatusReply) -> (Vec<u64>, Verdict, usize) {
    let mut sleeps: Vec<u64> = Vec::new();
    let mut requests: usize = 0;
    loop {
        let answer = if requests < n { reply("RUNNING") } else {
            StatusReply {
                status: last.status.clone(),
                error_msg: last.error_msg.clone(),
                output: last.output.clone(),
            }
        };
        requests += 1;
        match job.observe(&answer) {
            Verdict::Wait { millis } => sleeps.push(millis),
            verdict => return (sleeps, verdict, requests),
        }
        assert!(requests <= n + 1, "the loop went on after a terminal status");
    }
}

#[test]
fn status_words_are_classified() {
    assert_eq!(classify_status(&"RUNNING".to_string()), JobState::Running);
    assert_eq!(classify_status(&"SUCCEEDED".to_string()), JobState::Succeeded);
    assert_eq!(classify_status(&"FAILED".to_string()), JobState::Failed);
    assert_eq!(classify_status(&"ABORTED".to_string()), JobState::Failed);
    assert_eq!(classify_status(&"running".to_string()), JobState::Failed);
    assert_eq!(classify_status(&"".to_string()), JobState::Failed);
    assert_eq!(classify_status(&"RUNNING ".to_string()), JobState::Failed);
}

#[test]
fn default_policy_waits_a_tenth_of_a_second_without_limit() {
    let policy = PollPolicy::default();
    assert_eq!(policy.interval_millis, 100);
    assert_eq!(POLL_INTERVAL_MILLIS, 100);
    assert_eq!(policy.max_waits, None);
}

#[test]
fn a_submitted_job_runs() {
    let job = ProvingJob::submit("uuid-1".to_string(), &PollPolicy::default());
    assert_eq!(job.id, "uuid-1");
    assert_eq!(job.state, JobState::Running);
    assert_eq!(job.waits_left, None);
    assert_eq!(job.interval_millis, 100);
}

#[test]
fn n_running_replies_cost_n_sleeps() {
    for n in [0usize, 1, 2, 7, 50] {
        let mut job = ProvingJob::submit("uuid-1".to_string(), &PollPolicy::default());
        let (sleeps, verdict, requests) = poll_to_the_end(&mut job, n, reply("SUCCEEDED"));
        assert_eq!(sleeps.len(), n);
        assert!(sleeps.iter().all(|&millis| millis == 100));
        assert_eq!(requests, n + 1);
        assert!(matches!(verdict, Verdict::Fetch));
        assert_eq!(job.state, JobState::Succeeded);
    }
}

#[test]
fn a_zero_interval_still_counts_every_wait() {
    let policy = PollPolicy { interval_millis: 0, max_waits: None };
    let mut job = ProvingJob::submit("uuid-1".to_string(), &policy);
    let (sleeps, verdict, _) = poll_to_the_end(&mut job, 3, reply("SUCCEEDED"));
    assert_eq!(sleeps, vec![0, 0, 0]);
    assert!(matches!(verdict, Verdict::Fetch));
}

#[test]
fn a_failed_job_names_itself_and_the_message() {
    let mut job = ProvingJob::submit("job-42".to_string(), &PollPolicy::default());
    let last = StatusReply {
        status: "FAILED".to_string(),
        error_msg: Some("out of memory".to_string()),
        output: None,
    };
    let (sleeps, verdict, _) = poll_to_the_end(&mut job, 2, last);
    assert_eq!(sleeps.len(), 2);
    match verdict {
        Verdict::Abort(error) => {
            match &error {
                EvalError::JobFailed { job_id, message } => {
                    assert_eq!(job_id, "job-42");
                    assert_eq!(message, "out of memory");
                }
                other => panic!("unexpected error {:?}", other),
            }
            let text = error.to_string();
            assert!(text.contains("job-42"));
            assert!(text.contains("out of memory"));
            assert_eq!(text, "Job failed: job-42 - out of memory");
        }
        other => panic!("unexpected verdict {:?}", other),
    }
    assert_eq!(job.state, JobState::Failed);
}

#[test]
fn a_failure_without_message_has_an_empty_one() {
    let mut job = ProvingJob::submit("job-43".to_string(), &PollPolicy::default());
    match job.observe(&reply("CANCELLED")) {
        Verdict::Abort(EvalError::JobFailed { job_id, message }) => {
            assert_eq!(job_id, "job-43");
            assert_eq!(message, "");
        }
        other => panic!("unexpected verdict {:?}", other),
    }
}

#[test]
fn a_job_that_is_over_is_not_polled_again() {
    let mut job = ProvingJob::submit("job-44".to_string(), &PollPolicy::default());
    assert!(matches!(job.observe(&reply("SUCCEEDED")), Verdict::Fetch));
    assert!(matches!(
        job.observe(&reply("RUNNING")),
        Verdict::Abort(EvalError::UnexpectedEvent)
    ));
    assert_eq!(job.state, JobState::Succeeded);
    let mut job = ProvingJob::submit("job-45".to_string(), &PollPolicy::default());
    assert!(matches!(job.observe(&reply("FAILED")), Verdict::Abort(EvalError::JobFailed { .. })));
    assert!(matches!(
        job.observe(&reply("SUCCEEDED")),
        Verdict::Abort(EvalError::UnexpectedEvent)
    ));
    assert_eq!(job.state, JobState::Failed);
}

#[test]
fn a_limited_poller_gives_up_after_its_waits() {
    let policy = PollPolicy { interval_millis: 5, max_waits: Some(3) };
    let mut job = ProvingJob::submit("job-46".to_string(), &policy);
    let (sleeps, verdict, requests) = poll_to_the_end(&mut job, 10, reply("SUCCEEDED"));
    assert_eq!(sleeps, vec![5, 5, 5]);
    assert_eq!(requests, 4);
    match verdict {
        Verdict::Abort(EvalError::JobTimedOut { job_id }) => assert_eq!(job_id, "job-46"),
        other => panic!("unexpected verdict {:?}", other),
    }
    assert_eq!(job.state, JobState::Running);
    assert_eq!(job.waits_left, Some(0));
}

#[test]
fn a_limited_poller_that_is_served_in_time_succeeds() {
    let policy = PollPolicy { interval_millis: 5, max_waits: Some(3) };
    let mut job = ProvingJob::submit("job-47".to_string(), &policy);
    let (sleeps, verdict, _) = poll_to_the_end(&mut job, 3, reply("SUCCEEDED"));
    assert_eq!(sleeps.len(), 3);
    assert!(matches!(verdict, Verdict::Fetch));
    let policy = PollPolicy { interval_millis: 5, max_waits: Some(0) };
    let mut job = ProvingJob::submit("job-48".to_string(), &policy);
    assert!(matches!(job.observe(&reply("SUCCEEDED")), Verdict::Fetch));
}
