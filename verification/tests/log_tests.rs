use activity_log::log::{DuplicateId, EventLog};
use activity_log::retention::{effective_limit, resolve_retention, DEFAULT_RETENTION};
use activity_log::state::{ActivityEvent, ActivityKind, ActivityStatus};

fn event(id: &str, actor: &str) -> ActivityEvent {
    ActivityEvent {
        id: id.to_string(),
        created_at: "2024-01-01T00:00:00Z".to_string(),
        actor: actor.to_string(),
        app: "bridge-app".to_string(),
        intent_id: "intent-1".to_string(),
        kind: ActivityKind::Bridge,
        status: ActivityStatus::Started,
        chains: None,
        token: None,
        tx: None,
        refs: None,
        ai: None,
        signals: None,
    }
}

fn ids(log: &EventLog) -> Vec<String> {
    log.as_slice().iter().map(|e| e.id.clone()).collect()
}

#[test]
fn append_keeps_insertion_order() {
    let mut log = EventLog::new();
    assert_eq!(log.len(), 0);
    assert!(log.append(event("e1", "alice"), 300).is_ok());
    assert!(log.append(event("e2", "alice"), 300).is_ok());
    assert!(log.append(event("e3", "alice"), 300).is_ok());
    assert_eq!(ids(&log), vec!["e1", "e2", "e3"]);
}

#[test]
fn append_rejects_duplicate_id_and_changes_nothing() {
    let mut log = EventLog::new();
    assert!(log.append(event("e1", "alice"), 300).is_ok());
    let before: Vec<ActivityEvent> = vec![event("e1", "alice")];
    assert_eq!(log.append(event("e1", "alice"), 300), Err(DuplicateId));
    assert_eq!(log.as_slice(), &before);
}

#[test]
fn retention_evicts_oldest_first() {
    let mut log = EventLog::new();
    assert!(log.append(event("e1", "alice"), 2).is_ok());
    assert!(log.append(event("e2", "alice"), 2).is_ok());
    assert!(log.append(event("e3", "alice"), 2).is_ok());
    assert_eq!(ids(&log), vec!["e2", "e3"]);
    assert!(log.append(event("e4", "alice"), 2).is_ok());
    assert_eq!(ids(&log), vec!["e3", "e4"]);
}

#[test]
fn retention_zero_means_default_not_unbounded() {
    assert_eq!(effective_limit(0), DEFAULT_RETENTION as usize);
    assert_eq!(effective_limit(7), 7);
    let mut log = EventLog::new();
    assert!(log.append(event("e1", "alice"), 0).is_ok());
    assert!(log.append(event("e2", "alice"), 0).is_ok());
    assert_eq!(log.len(), 2);
}

#[test]
fn resolve_retention_defaults_non_positive() {
    assert_eq!(resolve_retention(None), DEFAULT_RETENTION);
    assert_eq!(resolve_retention(Some(0)), DEFAULT_RETENTION);
    assert_eq!(resolve_retention(Some(25)), 25);
}

#[test]
fn contains_and_find_by_id() {
    let mut log = EventLog::new();
    assert!(log.append(event("e1", "alice"), 300).is_ok());
    assert!(log.append(event("e2", "alice"), 300).is_ok());
    assert!(log.contains_id(&"e1".to_string()));
    assert!(!log.contains_id(&"e9".to_string()));
    assert_eq!(log.find_index(&"e2".to_string()), Some(1));
    assert_eq!(log.find_index(&"e9".to_string()), None);
}

#[test]
fn from_entries_rejects_duplicates() {
    let good = vec![event("e1", "alice"), event("e2", "alice")];
    let log = EventLog::from_entries(good).expect("distinct ids");
    assert_eq!(log.len(), 2);

    let bad = vec![event("e1", "alice"), event("e1", "alice")];
    assert!(EventLog::from_entries(bad).is_err());
}

#[test]
fn into_entries_round_trips() {
    let entries = vec![event("e1", "alice"), event("e2", "alice")];
    let expected = vec![event("e1", "alice"), event("e2", "alice")];
    let log = EventLog::from_entries(entries).expect("distinct ids");
    assert_eq!(log.into_entries(), expected);
}
