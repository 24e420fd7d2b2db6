use autonomic_engine::controller::{ControllerResult, PGController};

fn controller() -> PGController {
    PGController::new(
        "controller_1",
        "Play ground test controller",
        "store_1",
        "default state",
        1000,
    )
}

#[test]
fn test_ctrl_perform_writes_default() {
    // The correction step of one monitor/correct cycle, with the store held
    // as a plain value: the desired state is written back and success is
    // reported.
    let ctrl = controller();
    let mut store = "new state".to_owned();
    store = ctrl.desired_state().clone();
    let result = PGController::correction_report(None);
    assert!(matches!(result, ControllerResult::Success));
    assert_eq!(store, "default state");
}

#[test]
fn test_pgcontroller_notify_receives_event() {
    // The monitor phase of the same cycle: writing "new state" to the store
    // makes the next poll observe drift.
    let ctrl = controller();
    let store = "new state".to_owned();
    assert!(ctrl.drift_detected(Some(&store)));
}

#[test]
fn drift_cycle_detects_and_corrects_within_one_poll() {
    let ctrl = controller();
    // The store starts at the desired value.
    let mut store = ctrl.store_init_value(None);
    assert_eq!(store, "default state");
    assert!(!ctrl.drift_detected(Some(&store)));

    // An outside write diverges the store; the very next poll sees it.
    store = "new state".to_owned();
    assert!(ctrl.drift_detected(Some(&store)));

    // The correction re-applies the desired state and reports success.
    store = ctrl.desired_state().clone();
    let result = PGController::correction_report(None);
    assert!(matches!(result, ControllerResult::Success));
    assert!(!ctrl.drift_detected(Some(&store)));
}

#[test]
fn failed_poll_is_not_drift() {
    let ctrl = controller();
    assert!(!ctrl.drift_detected(None));
}

#[test]
fn a_write_fault_is_reported_not_thrown() {
    let result = PGController::correction_report(Some("No space left on device".to_owned()));
    assert!(matches!(result, ControllerResult::ErrMsg(m) if m == "No space left on device"));
}

#[test]
fn existing_store_content_is_kept_at_registration() {
    let ctrl = controller();
    let kept = ctrl.store_init_value(Some("already there".to_owned()));
    assert_eq!(kept, "already there");
}

#[test]
fn controller_reports_its_identity_and_schedule() {
    let ctrl = controller();
    assert_eq!(ctrl.id(), "controller_1");
    assert_eq!(ctrl.description(), "Play ground test controller");
    assert_eq!(ctrl.store(), "store_1");
    assert_eq!(ctrl.poll_ms(), 1000);
    assert_eq!(ctrl.desired_state().as_str(), "default state");
}
