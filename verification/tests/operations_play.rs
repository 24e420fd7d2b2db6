use autonomic_engine::operations::{
    OperationParameters, Play, PlaygroundOperation, PlayParameters,
};
use autonomic_engine::retry::{AttemptOutcome, Retry};
use autonomic_engine::states::{OperationResult, OpState};

#[test]
fn operation_reports_its_identity() {
    let op = PlaygroundOperation::new("main_operation", "Main playground operation");
    assert_eq!(op.id(), "main_operation");
    assert_eq!(op.describe(), "Main playground operation");
}

#[test]
fn run_acts_out_a_normal_result() {
    let play = Play::NormalResult(OperationResult::ok_str("Welcome to autonomic!"));
    let outcome = PlaygroundOperation::run(&play);
    assert!(matches!(
        outcome,
        AttemptOutcome::Completed(OperationResult::Success(Some(m))) if m == "Welcome to autonomic!"
    ));
}

#[test]
fn run_reports_a_panic_as_an_outcome() {
    let outcome = PlaygroundOperation::run(&Play::Panic);
    assert!(matches!(
        outcome,
        AttemptOutcome::Panicked(m) if m == "Unexpected Error in Playground Operation"
    ));
}

#[test]
fn retry_run_spends_the_budget_on_a_failing_play() {
    let op = PlaygroundOperation::new("op", "retried");
    let params = PlayParameters::new(
        Play::NormalResult(OperationResult::err_str("Expected Error")),
        Some(Retry::new(2, 1)),
        0,
    );
    let (outcome, attempts) = op.retry_run(&params);
    assert_eq!(attempts, 3);
    assert!(matches!(
        outcome,
        AttemptOutcome::Completed(OperationResult::Error(Some(m))) if m == "Expected Error"
    ));
}

#[test]
fn retry_run_makes_one_attempt_on_a_succeeding_play() {
    let op = PlaygroundOperation::new("op", "plain");
    let params = PlayParameters::new(
        Play::NormalResult(OperationResult::ok_str("fine")),
        Some(Retry::new(9, 1)),
        0,
    );
    let (outcome, attempts) = op.retry_run(&params);
    assert_eq!(attempts, 1);
    assert!(matches!(
        outcome,
        AttemptOutcome::Completed(OperationResult::Success(Some(m))) if m == "fine"
    ));
}

#[test]
fn perform_requires_parameters() {
    let op = PlaygroundOperation::new("op", "strict");
    let (outcome, attempts) = op.perform(None);
    assert_eq!(attempts, 1);
    assert!(matches!(
        outcome,
        AttemptOutcome::Completed(OperationResult::Error(Some(m))) if m == "Parameters required"
    ));
}

#[test]
fn perform_rejects_an_unexpected_payload() {
    let op = PlaygroundOperation::new("op", "strict");
    let payload = OperationParameters::RetrySettings(Retry::new(1, 1));
    let (outcome, attempts) = op.perform(Some(&payload));
    assert_eq!(attempts, 1);
    assert!(matches!(
        outcome,
        AttemptOutcome::Completed(OperationResult::Error(Some(m))) if m == "Unexpected parameters"
    ));
}

#[test]
fn perform_acts_out_playground_parameters() {
    let op = PlaygroundOperation::new("op", "plays");
    let payload = OperationParameters::Play(PlayParameters::new(
        Play::NormalResult(OperationResult::ok_str("done")),
        None,
        0,
    ));
    let (outcome, attempts) = op.perform(Some(&payload));
    assert_eq!(attempts, 1);
    assert!(matches!(
        outcome,
        AttemptOutcome::Completed(OperationResult::Success(Some(m))) if m == "done"
    ));
}

#[test]
fn play_parameters_keep_their_fields() {
    let params = PlayParameters::new(Play::Panic, Some(Retry::new(4, 7)), 3);
    assert_eq!(params.sleep_sec(), 3);
    let retry = params.retry().unwrap();
    assert_eq!(retry.retries, 4);
    assert_eq!(retry.delay_ms, 7);
}

#[test]
fn results_report_their_tag() {
    assert!(OperationResult::ok_str("m").is_ok());
    assert!(!OperationResult::ok_str("m").is_err());
    assert!(OperationResult::err_str("m").is_err());
    assert!(OperationResult::Success(None).is_ok());
    assert!(OperationResult::Error(None).is_err());
}

#[test]
fn outcomes_map_to_their_terminal_events() {
    let ok = AttemptOutcome::Completed(OperationResult::ok_str("done"));
    assert!(matches!(ok.to_terminal_event(), OpState::Succeeded(Some(m)) if m == "done"));
    let failed = AttemptOutcome::Completed(OperationResult::Error(None));
    assert!(matches!(failed.to_terminal_event(), OpState::Failed(None)));
    let panicked = AttemptOutcome::Panicked("boom".to_owned());
    assert!(matches!(panicked.to_terminal_event(), OpState::Panicked(m) if m == "boom"));
}
