use autonomic_engine::conditions::Interval;
use autonomic_engine::entry::OperationEntry;
use autonomic_engine::manager::{ControllerManager, ManagerError};
use autonomic_engine::retry::AttemptOutcome;
use autonomic_engine::sensor::Sensor;
use autonomic_engine::states::{OperationResult, OpState};

fn ok_outcomes(n: usize) -> Vec<AttemptOutcome> {
    let mut v = Vec::new();
    for _ in 0..n {
        v.push(AttemptOutcome::Completed(OperationResult::Success(None)));
    }
    v
}

fn entry(id: &str) -> OperationEntry {
    OperationEntry::new(id.to_owned(), format!("operation {id}"), None, None)
}

#[test]
fn locked_activation_yields_single_locked_event() {
    let mut mgr = ControllerManager::new();
    assert!(mgr.submit(entry("op")));
    mgr.lock(&"op".to_owned()).unwrap();
    let (events, attempts) = mgr.activate(&"op".to_owned(), &ok_outcomes(1)).unwrap();
    assert_eq!(events.len(), 1);
    assert!(matches!(&events[0], OpState::Locked(Some(m)) if m == "operation is locked"));
    assert_eq!(attempts, 0);
    // No `Started` anywhere in the stream.
    assert!(!events.iter().any(|e| matches!(e, OpState::Started)));
}

#[test]
fn busy_activation_is_rejected_without_second_start() {
    let mut e = entry("op");
    let (started, first) = e.try_begin();
    assert!(started);
    assert!(matches!(first, OpState::Started));
    // A second activation while the first is in flight is rejected at once.
    let (started_again, rejection) = e.try_begin();
    assert!(!started_again);
    assert!(
        matches!(&rejection, OpState::Locked(Some(m)) if m == "operation is already performing")
    );
    // The first invocation still finishes normally.
    let terminal = e.finish(&AttemptOutcome::Completed(OperationResult::Success(None)));
    assert!(matches!(terminal, OpState::Succeeded(None)));
}

#[test]
fn panic_locks_operation_and_stops_sensor_atomically() {
    let mut mgr = ControllerManager::new();
    let sensor = Sensor::new(Interval::new(1, None));
    let e = OperationEntry::new(
        "op".to_owned(),
        "guarded".to_owned(),
        Some(sensor),
        None,
    );
    assert!(mgr.submit(e));
    mgr.start_sensor(&"op".to_owned()).unwrap();
    let info = mgr.ctrl(&"op".to_owned()).unwrap();
    assert!(info.sensing());
    assert!(!info.locked());

    let outcomes = vec![AttemptOutcome::Panicked("boom".to_owned())];
    let (events, attempts) = mgr.activate(&"op".to_owned(), &outcomes).unwrap();
    assert_eq!(attempts, 1);
    assert_eq!(events.len(), 2);
    assert!(matches!(&events[0], OpState::Started));
    assert!(matches!(&events[1], OpState::Panicked(m) if m == "boom"));

    // The one post-state every observer sees: locked, sensor disarmed.
    let info = mgr.ctrl(&"op".to_owned()).unwrap();
    assert!(info.locked());
    assert!(!info.sensing());
    assert!(!info.performing());
}

#[test]
fn unlock_permits_activation_to_reach_started() {
    let mut mgr = ControllerManager::new();
    assert!(mgr.submit(entry("op")));
    mgr.lock(&"op".to_owned()).unwrap();
    let (events, _) = mgr.activate(&"op".to_owned(), &ok_outcomes(1)).unwrap();
    assert!(matches!(&events[0], OpState::Locked(_)));

    mgr.unlock(&"op".to_owned()).unwrap();
    let (events, attempts) = mgr.activate(&"op".to_owned(), &ok_outcomes(1)).unwrap();
    assert!(matches!(&events[0], OpState::Started));
    assert!(matches!(&events[1], OpState::Succeeded(None)));
    assert_eq!(attempts, 1);
}

#[test]
fn abort_releases_in_flight_marker_and_keeps_lock_state() {
    let mut mgr = ControllerManager::new();
    let mut e = entry("op");
    let (started, _) = e.try_begin();
    assert!(started);
    assert!(mgr.submit(e));
    let info = mgr.ctrl(&"op".to_owned()).unwrap();
    assert!(info.performing());

    let ev = mgr.abort(&"op".to_owned()).unwrap();
    assert!(matches!(ev, OpState::Aborted));
    let info = mgr.ctrl(&"op".to_owned()).unwrap();
    assert!(!info.performing());
    assert!(!info.locked());

    // Released marker: a subsequent activation proceeds.
    let (events, _) = mgr.activate(&"op".to_owned(), &ok_outcomes(1)).unwrap();
    assert!(matches!(&events[0], OpState::Started));
}

#[test]
fn duplicate_id_is_refused() {
    let mut mgr = ControllerManager::new();
    assert!(mgr.submit(entry("op")));
    assert!(!mgr.submit(entry("op")));
    assert_eq!(mgr.list().len(), 1);
}

#[test]
fn unknown_id_is_rejected_by_every_control_call() {
    let mut mgr = ControllerManager::new();
    let id = "ghost".to_owned();
    assert!(matches!(mgr.lock(&id), Err(ManagerError::UnknownId)));
    assert!(matches!(mgr.unlock(&id), Err(ManagerError::UnknownId)));
    assert!(matches!(mgr.abort(&id), Err(ManagerError::UnknownId)));
    assert!(matches!(mgr.start_sensor(&id), Err(ManagerError::UnknownId)));
    assert!(matches!(mgr.stop_sensor(&id), Err(ManagerError::UnknownId)));
    assert!(matches!(
        mgr.activate(&id, &ok_outcomes(1)),
        Err(ManagerError::UnknownId)
    ));
    assert!(mgr.ctrl(&id).is_none());
}

#[test]
fn sensor_calls_on_sensorless_operation_report_no_sensor() {
    let mut mgr = ControllerManager::new();
    assert!(mgr.submit(entry("plain")));
    assert!(matches!(
        mgr.start_sensor(&"plain".to_owned()),
        Err(ManagerError::NoSensor)
    ));
    assert!(matches!(
        mgr.stop_sensor(&"plain".to_owned()),
        Err(ManagerError::NoSensor)
    ));
}

#[test]
fn list_reflects_live_state() {
    let mut mgr = ControllerManager::new();
    assert!(mgr.submit(entry("first")));
    let mut busy = entry("second");
    busy.try_begin();
    assert!(mgr.submit(busy));

    let rows = mgr.list();
    assert_eq!(rows.len(), 2);
    assert_eq!(rows[0].id().as_str(), "first");
    assert_eq!(rows[0].description().as_str(), "operation first");
    assert!(!rows[0].performing());
    assert!(rows[1].performing());

    let performing = mgr.list_performing();
    assert_eq!(performing, vec!["second".to_owned()]);

    mgr.lock(&"first".to_owned()).unwrap();
    let rows = mgr.list();
    assert!(rows[0].locked());
}
