use autonomic_engine::entry::OperationEntry;
use autonomic_engine::retry::{AttemptOutcome, Retry, RetrySchedule, RetryStep};
use autonomic_engine::states::{OperationResult, OpState};

fn err() -> AttemptOutcome {
    AttemptOutcome::Completed(OperationResult::Error(Some("expected".to_owned())))
}

fn ok_done() -> AttemptOutcome {
    AttemptOutcome::Completed(OperationResult::Success(Some("done".to_owned())))
}

fn retrying_entry(retries: u8) -> OperationEntry {
    OperationEntry::new(
        "op".to_owned(),
        "retried".to_owned(),
        None,
        Some(Retry::new(retries, 10)),
    )
}

#[test]
fn fails_n_times_then_succeeds_ends_ok_after_n_plus_one_attempts() {
    let n: usize = 3;
    let mut e = retrying_entry(n as u8);
    let mut outcomes = Vec::new();
    for _ in 0..n {
        outcomes.push(err());
    }
    outcomes.push(ok_done());
    let (events, attempts) = e.run_invocation(&outcomes);
    assert_eq!(attempts, n + 1);
    assert_eq!(events.len(), 2);
    assert!(matches!(&events[0], OpState::Started));
    assert!(matches!(&events[1], OpState::Succeeded(Some(m)) if m == "done"));
}

#[test]
fn always_failing_work_runs_exactly_n_plus_one_attempts_and_fails() {
    let n: usize = 3;
    let mut e = retrying_entry(n as u8);
    let mut outcomes = Vec::new();
    for _ in 0..(n + 1) {
        outcomes.push(err());
    }
    let (events, attempts) = e.run_invocation(&outcomes);
    assert_eq!(attempts, n + 1);
    assert!(matches!(&events[1], OpState::Failed(Some(m)) if m == "expected"));
}

#[test]
fn success_on_first_attempt_retries_nothing() {
    let mut e = retrying_entry(5);
    let outcomes = vec![ok_done(), err(), err(), err(), err(), err()];
    let (events, attempts) = e.run_invocation(&outcomes);
    assert_eq!(attempts, 1);
    assert!(matches!(&events[1], OpState::Succeeded(Some(m)) if m == "done"));
}

#[test]
fn zero_retries_means_exactly_one_attempt() {
    let mut e = retrying_entry(0);
    let outcomes = vec![err()];
    let (events, attempts) = e.run_invocation(&outcomes);
    assert_eq!(attempts, 1);
    assert!(matches!(&events[1], OpState::Failed(_)));
}

#[test]
fn absent_policy_means_exactly_one_attempt() {
    let mut e = OperationEntry::new("op".to_owned(), "bare".to_owned(), None, None);
    let outcomes = vec![err()];
    let (events, attempts) = e.run_invocation(&outcomes);
    assert_eq!(attempts, 1);
    assert!(matches!(&events[1], OpState::Failed(_)));
}

#[test]
fn abrupt_termination_is_never_retried() {
    let mut e = retrying_entry(4);
    let outcomes = vec![
        AttemptOutcome::Panicked("boom".to_owned()),
        ok_done(),
        ok_done(),
        ok_done(),
        ok_done(),
    ];
    let (events, attempts) = e.run_invocation(&outcomes);
    assert_eq!(attempts, 1);
    assert!(matches!(&events[1], OpState::Panicked(m) if m == "boom"));
    assert!(e.locked);
}

#[test]
fn schedule_waits_the_policy_delay_between_attempts() {
    let mut sched = RetrySchedule::new(Some(Retry::new(2, 250)));
    assert!(matches!(sched.record(&err()), RetryStep::RetryAfterMs(250)));
    assert!(matches!(sched.record(&err()), RetryStep::RetryAfterMs(250)));
    // Budget spent: the third attempt settles whatever it came to.
    assert!(matches!(sched.record(&err()), RetryStep::Finish));
}

#[test]
fn schedule_finishes_at_once_on_success_or_panic() {
    let mut sched = RetrySchedule::new(Some(Retry::new(3, 5)));
    assert!(matches!(sched.record(&ok_done()), RetryStep::Finish));
    let mut sched = RetrySchedule::new(Some(Retry::new(3, 5)));
    assert!(matches!(
        sched.record(&AttemptOutcome::Panicked("boom".to_owned())),
        RetryStep::Finish
    ));
    let mut sched = RetrySchedule::new(None);
    assert!(matches!(sched.record(&err()), RetryStep::Finish));
}

#[test]
fn retry_new_keeps_its_fields() {
    let r = Retry::new(7, 1500);
    assert_eq!(r.retries, 7);
    assert_eq!(r.delay_ms, 1500);
}
