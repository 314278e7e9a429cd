use gitforge::{AntEngine, AntError, GoalStatus, SystemEvent, SYSTEM_EVENT_SCHEMA_VERSION};

#[test]
fn create_and_get_goal_status() {
    let mut engine = AntEngine::new();
    engine
        .create_goal("G-1", "Analyze repository")
        .expect("goal created");

    let status = engine.get_goal_status("G-1").expect("status exists");
    assert_eq!(status, GoalStatus::Pending);
}

#[test]
fn cancel_goal_changes_status() {
    let mut engine = AntEngine::new();
    engine
        .create_goal("G-2", "Refactor module")
        .expect("goal created");

    engine.cancel_goal("G-2").expect("goal cancelled");
    let status = engine.get_goal_status("G-2").expect("status exists");

    assert_eq!(status, GoalStatus::Cancelled);
}

#[test]
fn subscribe_events_receives_v1_event() {
    let mut engine = AntEngine::new();
    let mut rx = engine.subscribe_events();

    engine
        .create_goal("G-3", "Plan tasks")
        .expect("goal created");

    let event = rx.try_recv().expect("event received");
    assert_eq!(event.schema_version, SYSTEM_EVENT_SCHEMA_VERSION);
}

#[test]
fn events_of_creation_and_cancellation_arrive_in_order() {
    let mut engine = AntEngine::default();
    let mut rx = engine.subscribe_events();
    engine.create_goal("G-4", "Ship").expect("created");
    engine.cancel_goal("G-4").expect("cancelled");
    let kinds: Vec<String> = (0..4)
        .map(|_| match rx.try_recv().expect("event").event {
            SystemEvent::GoalCreated { goal_id, task } => format!("created {goal_id} {task}"),
            SystemEvent::GoalCancelled { goal_id } => format!("cancelled {goal_id}"),
            SystemEvent::GoalStatusChanged { goal_id, status } => {
                format!("status {goal_id} {status:?}")
            }
        })
        .collect();
    assert_eq!(
        kinds,
        vec![
            "created G-4 Ship",
            "status G-4 Pending",
            "cancelled G-4",
            "status G-4 Cancelled"
        ]
    );
    assert!(rx.try_recv().is_err());
}

#[test]
fn duplicate_goal_is_refused_and_unknown_goal_not_found() {
    let mut engine = AntEngine::new();
    engine.create_goal("G-5", "One").expect("created");
    engine.create_goal("G-6", "Two").expect("created");
    match engine.create_goal("G-5", "Again") {
        Err(AntError::GoalAlreadyExists(id)) => assert_eq!(id, "G-5"),
        other => panic!("{:?}", other),
    }
    assert_eq!(engine.get_goal_status("G-5").unwrap(), GoalStatus::Pending);
    match engine.get_goal_status("G-9") {
        Err(AntError::GoalNotFound(id)) => assert_eq!(id, "G-9"),
        other => panic!("{:?}", other),
    }
    match engine.cancel_goal("G-9") {
        Err(e) => assert_eq!(e.message(), "goal not found: G-9"),
        Ok(()) => panic!("cancelled a missing goal"),
    }
    engine.cancel_goal("G-6").expect("cancelled");
    assert_eq!(engine.get_goal_status("G-5").unwrap(), GoalStatus::Pending);
    assert_eq!(engine.get_goal_status("G-6").unwrap(), GoalStatus::Cancelled);
}
