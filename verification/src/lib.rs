//! Per-actor, ordered, size-bounded, deduplicated logs of activity events,
//! with partial in-place status updates and cursor-paginated reads.
//!
//! The crate is organised leaves-first: [`state`] holds the event data model,
//! [`retention`] resolves the configured log bound, [`log`] owns one actor's
//! ordered event sequence, [`ops`] applies the write operations, and
//! [`query`] serves the paginated reads. [`laws`] states and proves the
//! properties that relate several of those operations.

use vstd::prelude::*;

pub mod laws;
pub mod log;
pub mod ops;
pub mod query;
pub mod retention;
pub mod state;

pub use state::{ActivityEvent, ActivityStatus, ActivityTx};

verus! {

/// Marker type naming this application's operation/query interface.
pub struct ActivityLogAbi;

/// A write operation against one actor's log.
#[derive(Debug)]
pub enum Operation {
    AppendEvent { actor: String, event: ActivityEvent },
    UpdateEventStatus { actor: String, id: String, status: ActivityStatus, tx: Option<ActivityTx> },
}

/// Outcome of a write operation.
#[derive(Debug, PartialEq)]
pub enum OperationResponse {
    Done,
    Error(String),
}

/// A read request against one actor's log.
#[derive(Debug)]
pub enum Query {
    GetEvents { actor: String, limit: Option<u32>, cursor: Option<u64> },
    GetEvent { actor: String, id: String },
}

/// Outcome of a read request.
#[derive(Debug, PartialEq)]
pub enum QueryResponse {
    Events { items: Vec<ActivityEvent>, next_cursor: Option<u64> },
    Event { event: Option<ActivityEvent> },
    Error(String),
}

} // verus!
