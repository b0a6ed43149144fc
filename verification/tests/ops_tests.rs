use activity_log::log::EventLog;
use activity_log::ops::{
    append_event, error_code, execute_operation, parse_status, update_event_status, OpError,
};
use activity_log::state::{ActivityEvent, ActivityKind, ActivityStatus, ActivityTx};
use activity_log::{Operation, OperationResponse};

fn event(id: &str, actor: &str) -> ActivityEvent {
    ActivityEvent {
        id: id.to_string(),
        created_at: "2024-01-01T00:00:00Z".to_string(),
        actor: actor.to_string(),
        app: "bridge-app".to_string(),
        intent_id: "intent-1".to_string(),
        kind: ActivityKind::Swap,
        status: ActivityStatus::Started,
        chains: None,
        token: None,
        tx: None,
        refs: None,
        ai: None,
        signals: None,
    }
}

#[test]
fn append_creates_log_for_absent_actor() {
    let log = append_event(None, &"alice".to_string(), event("e1", "alice"), 300)
        .expect("first append succeeds");
    assert_eq!(log.len(), 1);
    assert_eq!(log.as_slice()[0], event("e1", "alice"));
}

#[test]
fn append_with_mismatched_actor_fails_and_writes_nothing() {
    let (to_store, response) = execute_operation(
        None,
        300,
        Operation::AppendEvent { actor: "alice".to_string(), event: event("e1", "bob") },
    );
    assert!(to_store.is_none());
    assert_eq!(response, OperationResponse::Error("actor_mismatch".to_string()));
}

#[test]
fn duplicate_append_fails_and_log_is_unchanged() {
    let log = append_event(None, &"alice".to_string(), event("e1", "alice"), 300)
        .expect("first append succeeds");
    let before: Vec<ActivityEvent> = vec![event("e1", "alice")];
    assert_eq!(log.as_slice(), &before);
    let (to_store, response) = execute_operation(
        Some(log),
        300,
        Operation::AppendEvent { actor: "alice".to_string(), event: event("e1", "alice") },
    );
    assert!(to_store.is_none());
    assert_eq!(response, OperationResponse::Error("event_exists".to_string()));
}

#[test]
fn update_on_absent_actor_fails_with_not_found() {
    let result = update_event_status(
        None,
        &"e1".to_string(),
        ActivityStatus::Completed,
        None,
    );
    assert_eq!(result.err(), Some(OpError::NotFound));
}

#[test]
fn update_on_absent_id_fails_with_not_found() {
    let log = append_event(None, &"alice".to_string(), event("e1", "alice"), 300)
        .expect("append succeeds");
    let result = update_event_status(
        Some(log),
        &"missing".to_string(),
        ActivityStatus::Completed,
        None,
    );
    assert_eq!(result.err(), Some(OpError::NotFound));
}

#[test]
fn update_overwrites_status_without_transition_checks() {
    let mut log = append_event(None, &"alice".to_string(), event("e1", "alice"), 300)
        .expect("append succeeds");
    for status in [
        ActivityStatus::Completed,
        ActivityStatus::Started,
        ActivityStatus::Failed,
        ActivityStatus::Approved,
    ] {
        log = update_event_status(Some(log), &"e1".to_string(), status, None)
            .expect("record exists");
        assert_eq!(log.as_slice()[0].status, status);
    }
}

#[test]
fn update_merges_destination_hash_and_keeps_source() {
    let mut seeded = event("e1", "alice");
    seeded.tx = Some(ActivityTx {
        source_tx_hash: Some("0x123".to_string()),
        dest_tx_hash: None,
    });
    let log = append_event(None, &"alice".to_string(), seeded, 300).expect("append succeeds");
    let log = update_event_status(
        Some(log),
        &"e1".to_string(),
        ActivityStatus::Completed,
        Some(ActivityTx { source_tx_hash: None, dest_tx_hash: Some("0xabc".to_string()) }),
    )
        .expect("record exists");
    let record = &log.as_slice()[0];
    assert_eq!(record.status, ActivityStatus::Completed);
    let tx = record.tx.as_ref().expect("tx sub-structure present");
    assert_eq!(tx.source_tx_hash, Some("0x123".to_string()));
    assert_eq!(tx.dest_tx_hash, Some("0xabc".to_string()));
}

#[test]
fn source_only_update_is_idempotent_and_keeps_dest() {
    let mut seeded = event("e1", "alice");
    seeded.tx = Some(ActivityTx {
        source_tx_hash: None,
        dest_tx_hash: Some("0xdd".to_string()),
    });
    let update = ActivityTx { source_tx_hash: Some("0x9".to_string()), dest_tx_hash: None };
    let log = append_event(None, &"alice".to_string(), seeded, 300).expect("append succeeds");
    let once = update_event_status(
        Some(log),
        &"e1".to_string(),
        ActivityStatus::Submitted,
        Some(ActivityTx { source_tx_hash: update.source_tx_hash.clone(), dest_tx_hash: None }),
    )
        .expect("record exists");
    let after_once: Vec<ActivityEvent> = once.as_slice().clone();
    let twice = update_event_status(
        Some(once),
        &"e1".to_string(),
        ActivityStatus::Submitted,
        Some(update),
    )
        .expect("record exists");
    assert_eq!(twice.as_slice(), &after_once);
    let tx = after_once[0].tx.as_ref().expect("tx sub-structure present");
    assert_eq!(tx.source_tx_hash, Some("0x9".to_string()));
    assert_eq!(tx.dest_tx_hash, Some("0xdd".to_string()));
}

#[test]
fn update_creates_tx_sub_structure_when_absent() {
    let log = append_event(None, &"alice".to_string(), event("e1", "alice"), 300)
        .expect("append succeeds");
    let log = update_event_status(
        Some(log),
        &"e1".to_string(),
        ActivityStatus::Submitted,
        Some(ActivityTx { source_tx_hash: Some("0x1".to_string()), dest_tx_hash: None }),
    )
        .expect("record exists");
    let tx = log.as_slice()[0].tx.as_ref().expect("tx sub-structure created");
    assert_eq!(tx.source_tx_hash, Some("0x1".to_string()));
    assert_eq!(tx.dest_tx_hash, None);
}

#[test]
fn successful_operations_return_the_log_to_persist() {
    let (stored, response) = execute_operation(
        None,
        300,
        Operation::AppendEvent { actor: "alice".to_string(), event: event("e1", "alice") },
    );
    assert_eq!(response, OperationResponse::Done);
    let log = stored.expect("append persists a log");
    assert_eq!(log.len(), 1);

    let (stored, response) = execute_operation(
        Some(log),
        300,
        Operation::UpdateEventStatus {
            actor: "alice".to_string(),
            id: "e1".to_string(),
            status: ActivityStatus::Attested,
            tx: None,
        },
    );
    assert_eq!(response, OperationResponse::Done);
    let log = stored.expect("update persists a log");
    assert_eq!(log.as_slice()[0].status, ActivityStatus::Attested);
}

#[test]
fn update_on_missing_actor_reports_not_found_code() {
    let (stored, response) = execute_operation(
        None,
        300,
        Operation::UpdateEventStatus {
            actor: "alice".to_string(),
            id: "e1".to_string(),
            status: ActivityStatus::Completed,
            tx: None,
        },
    );
    assert!(stored.is_none());
    assert_eq!(response, OperationResponse::Error("not_found".to_string()));
}

#[test]
fn error_codes_match_the_wire_tags() {
    assert_eq!(error_code(OpError::ActorMismatch), "actor_mismatch");
    assert_eq!(error_code(OpError::EventExists), "event_exists");
    assert_eq!(error_code(OpError::NotFound), "not_found");
    assert_eq!(error_code(OpError::StorageError), "storage_error");
}

#[test]
fn parse_status_accepts_the_six_wire_spellings() {
    assert_eq!(parse_status("started"), Some(ActivityStatus::Started));
    assert_eq!(parse_status("approved"), Some(ActivityStatus::Approved));
    assert_eq!(parse_status("submitted"), Some(ActivityStatus::Submitted));
    assert_eq!(parse_status("attested"), Some(ActivityStatus::Attested));
    assert_eq!(parse_status("completed"), Some(ActivityStatus::Completed));
    assert_eq!(parse_status("failed"), Some(ActivityStatus::Failed));
}

#[test]
fn parse_status_rejects_unknown_spellings() {
    assert_eq!(parse_status(""), None);
    assert_eq!(parse_status("Started"), None);
    assert_eq!(parse_status("done"), None);
}
