//! The write operations: append a record to an actor's log, or update the
//! status (and optionally the transaction hashes) of an existing record.
//!
//! Each function here takes the log that the durable store returned for the
//! operation's actor key — `None` when the key is absent — transforms it,
//! and returns the log to be written back, or the error that leaves the
//! store untouched. Loading and persisting are the host's work.

use vstd::prelude::*;

use crate::log::{
    appended, has_id, spec_updated_record, DuplicateId, EventLog,
};
use crate::state::{ActivityEvent, ActivityStatus, ActivityTx, EventView, TxView};
use crate::{Operation, OperationResponse};

verus! {

/// Why a write operation was refused.
#[derive(Clone, Copy, PartialEq, Eq, Structural, Debug)]
pub enum OpError {
    /// The operation's actor key disagrees with the event's own actor field.
    ActorMismatch,
    /// An append found its record's id already present.
    EventExists,
    /// An update targeted an absent actor or an absent id.
    NotFound,
    /// The durable store failed to read or write.
    StorageError,
}

/// The records that the store holds for a key: an absent key is an empty log.
pub open spec fn stored_view(stored: Option<EventLog>) -> Seq<EventView> {
    match stored {
        Some(log) => log@,
        None => Seq::<EventView>::empty(),
    }
}

/// The stored log satisfies the log invariant (vacuously for an absent key).
pub open spec fn stored_wf(stored: Option<EventLog>) -> bool {
    match stored {
        Some(log) => log.wf(),
        None => true,
    }
}

/// Outcome of appending `e` for actor key `actor` to the records `s`:
/// the new records, or the error that leaves the store unchanged.
pub open spec fn spec_append_event(
    s: Seq<EventView>,
    actor: Seq<char>,
    e: EventView,
    retention: u32,
) -> Result<Seq<EventView>, OpError> {
    if e.actor != actor {
        Err(OpError::ActorMismatch)
    } else if has_id(s, e.id) {
        Err(OpError::EventExists)
    } else {
        Ok(appended(s, e, retention))
    }
}

/// The position of the record carrying `id` in `s`.
pub open spec fn spec_index_of(s: Seq<EventView>, id: Seq<char>) -> int {
    choose|i: int| 0 <= i < s.len() && s[i].id == id
}

/// Outcome of updating the record carrying `id` in the records `s`:
/// the new records with that record's status overwritten and its
/// transaction sub-structure merged, or `NotFound`.
pub open spec fn spec_update_event_status(
    s: Seq<EventView>,
    id: Seq<char>,
    status: ActivityStatus,
    tx: Option<TxView>,
) -> Result<Seq<EventView>, OpError> {
    if !has_id(s, id) {
        Err(OpError::NotFound)
    } else {
        let i = spec_index_of(s, id);
        Ok(s.update(i, spec_updated_record(s[i], status, tx)))
    }
}

/// Appends `event` for actor key `actor`, creating the log implicitly when
/// the key was absent. Fails with `ActorMismatch` when the event's own
/// actor field disagrees with the key, and with `EventExists` on a
/// duplicate id; either failure changes nothing.
pub fn append_event(
    stored: Option<EventLog>,
    actor: &String,
    event: ActivityEvent,
    retention: u32,
) -> (r: Result<EventLog, OpError>)
    requires
        stored_wf(stored),
    ensures
        match r {
            Ok(log) => spec_append_event(stored_view(stored), actor@, event.deep_view(), retention)
                == Ok::<Seq<EventView>, OpError>(log@) && log.wf(),
            Err(e) => spec_append_event(stored_view(stored), actor@, event.deep_view(), retention)
                == Err::<Seq<EventView>, OpError>(e),
        },
{
    if !(event.actor == *actor) {
        return Err(OpError::ActorMismatch);
    }
    let mut log = match stored {
        Some(l) => l,
        None => EventLog::new(),
    };
    match log.append(event, retention) {
        Ok(()) => Ok(log),
        Err(DuplicateId) => Err(OpError::EventExists),
    }
}

/// Updates the status of the record carrying `id` in the stored log, and
/// merges an optional transaction update into it. Fails with `NotFound`
/// when the key was absent or no record carries `id`.
pub fn update_event_status(
    stored: Option<EventLog>,
    id: &String,
    status: ActivityStatus,
    tx: Option<ActivityTx>,
) -> (r: Result<EventLog, OpError>)
    requires
        stored_wf(stored),
    ensures
        match r {
            Ok(log) => spec_update_event_status(stored_view(stored), id@, status, tx.deep_view())
                == Ok::<Seq<EventView>, OpError>(log@) && log.wf(),
            Err(e) => spec_update_event_status(stored_view(stored), id@, status, tx.deep_view())
                == Err::<Seq<EventView>, OpError>(e),
        },
{
    let ghost s = stored_view(stored);
    let mut log = match stored {
        Some(l) => l,
        None => {
            return Err(OpError::NotFound);
        },
    };
    match log.find_index(id) {
        Some(i) => {
            log.update_record(i, status, tx);
            proof {
                let j = spec_index_of(s, id@);
                assert(0 <= j < s.len() && s[j].id == id@);
                assert(i as int == j);
            }
            Ok(log)
        },
        None => Err(OpError::NotFound),
    }
}

/// The tag under which each error is reported to the caller.
pub open spec fn spec_error_code(error: OpError) -> Seq<char> {
    match error {
        OpError::ActorMismatch => "actor_mismatch"@,
        OpError::EventExists => "event_exists"@,
        OpError::NotFound => "not_found"@,
        OpError::StorageError => "storage_error"@,
    }
}

/// Renders an error as its reported tag.
pub fn error_code(error: OpError) -> (s: String)
    ensures
        s@ == spec_error_code(error),
{
    match error {
        OpError::ActorMismatch => "actor_mismatch".to_owned(),
        OpError::EventExists => "event_exists".to_owned(),
        OpError::NotFound => "not_found".to_owned(),
        OpError::StorageError => "storage_error".to_owned(),
    }
}

/// Applies one write operation to the log loaded for its actor key.
/// Returns the log to persist under that key — `None` on failure, so a
/// failed operation writes nothing — together with the response.
pub fn execute_operation(
    stored: Option<EventLog>,
    retention: u32,
    operation: Operation,
) -> (r: (Option<EventLog>, OperationResponse))
    requires
        stored_wf(stored),
    ensures
        match operation {
            Operation::AppendEvent { actor, event } => match spec_append_event(
                stored_view(stored),
                actor@,
                event.deep_view(),
                retention,
            ) {
                Ok(s2) => r.1 == OperationResponse::Done && (r.0 matches Some(log) && log@
                    == s2 && log.wf()),
                Err(e) => r.0 is None && (r.1 matches OperationResponse::Error(m) && m@
                    == spec_error_code(e)),
            },
            Operation::UpdateEventStatus { actor, id, status, tx } => match spec_update_event_status(
                stored_view(stored),
                id@,
                status,
                tx.deep_view(),
            ) {
                Ok(s2) => r.1 == OperationResponse::Done && (r.0 matches Some(log) && log@
                    == s2 && log.wf()),
                Err(e) => r.0 is None && (r.1 matches OperationResponse::Error(m) && m@
                    == spec_error_code(e)),
            },
        },
{
    match operation {
        Operation::AppendEvent { actor, event } => match append_event(
            stored,
            &actor,
            event,
            retention,
        ) {
            Ok(log) => (Some(log), OperationResponse::Done),
            Err(e) => (None, OperationResponse::Error(error_code(e))),
        },
        Operation::UpdateEventStatus { actor: _, id, status, tx } => match update_event_status(
            stored,
            &id,
            status,
            tx,
        ) {
            Ok(log) => (Some(log), OperationResponse::Done),
            Err(e) => (None, OperationResponse::Error(error_code(e))),
        },
    }
}

/// Relies on `str`'s `PartialEq`: two string slices are equal exactly when
/// their character sequences are equal.
#[verifier::external_body]
fn str_eq(a: &str, b: &str) -> (r: bool)
    ensures
        r == (a@ == b@),
{
    a == b
}

/// The status named by `value`, under the lower-case wire spelling.
pub open spec fn spec_parse_status(value: Seq<char>) -> Option<ActivityStatus> {
    if value == "started"@ {
        Some(ActivityStatus::Started)
    } else if value == "approved"@ {
        Some(ActivityStatus::Approved)
    } else if value == "submitted"@ {
        Some(ActivityStatus::Submitted)
    } else if value == "attested"@ {
        Some(ActivityStatus::Attested)
    } else if value == "completed"@ {
        Some(ActivityStatus::Completed)
    } else if value == "failed"@ {
        Some(ActivityStatus::Failed)
    } else {
        None
    }
}

/// Parses the wire spelling of a status; unknown spellings parse to `None`.
pub fn parse_status(value: &str) -> (r: Option<ActivityStatus>)
    ensures
        r == spec_parse_status(value@),
{
    if str_eq(value, "started") {
        Some(ActivityStatus::Started)
    } else if str_eq(value, "approved") {
        Some(ActivityStatus::Approved)
    } else if str_eq(value, "submitted") {
        Some(ActivityStatus::Submitted)
    } else if str_eq(value, "attested") {
        Some(ActivityStatus::Attested)
    } else if str_eq(value, "completed") {
        Some(ActivityStatus::Completed)
    } else if str_eq(value, "failed") {
        Some(ActivityStatus::Failed)
    } else {
        None
    }
}

} // verus!
