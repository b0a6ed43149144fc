//! One actor's event log: an ordered, deduplicated, retention-bounded
//! sequence of [`ActivityEvent`]s.
//!
//! Records stand in arrival order and are never reordered. No two records
//! share an id. After an append the log is trimmed from the front (oldest
//! first) until its length is within the effective retention limit.

use vstd::prelude::*;

use crate::retention::{effective_limit, spec_effective_limit};
use crate::state::{ActivityEvent, ActivityStatus, ActivityTx, EventView, TxView};

verus! {

/// Some record in `s` carries the id `id`.
pub open spec fn has_id(s: Seq<EventView>, id: Seq<char>) -> bool {
    exists|i: int| 0 <= i < s.len() && s[i].id == id
}

/// No two records in `s` share an id.
pub open spec fn ids_unique(s: Seq<EventView>) -> bool {
    forall|i: int, j: int| 0 <= i < j < s.len() ==> s[i].id != s[j].id
}

/// The log that results from appending `e` to `s` under `retention`:
/// `e` goes to the end, then the oldest records are dropped until the
/// length is within the effective limit.
pub open spec fn appended(s: Seq<EventView>, e: EventView, retention: u32) -> Seq<EventView> {
    let grown = s.push(e);
    let limit = spec_effective_limit(retention);
    if grown.len() > limit {
        grown.skip(grown.len() - limit)
    } else {
        grown
    }
}

/// The transaction sub-structure after merging `update` into `target`:
/// each hash of `update` that is present overwrites the corresponding
/// field; absent hashes leave the existing value untouched. An absent
/// `target` acts as one with both fields absent.
pub open spec fn spec_merge_tx(target: Option<TxView>, update: TxView) -> TxView {
    let base = match target {
        Some(t) => t,
        None => TxView { source_tx_hash: None, dest_tx_hash: None },
    };
    TxView {
        source_tx_hash: match update.source_tx_hash {
            Some(h) => Some(h),
            None => base.source_tx_hash,
        },
        dest_tx_hash: match update.dest_tx_hash {
            Some(h) => Some(h),
            None => base.dest_tx_hash,
        },
    }
}

/// The record `e` after a status update: the status is overwritten
/// unconditionally, the transaction sub-structure is merged when an
/// update is supplied, and every other field is kept.
pub open spec fn spec_updated_record(
    e: EventView,
    status: ActivityStatus,
    tx: Option<TxView>,
) -> EventView {
    EventView {
        status: status,
        tx: match tx {
            Some(u) => Some(spec_merge_tx(e.tx, u)),
            None => e.tx,
        },
        ..e
    }
}

/// Dropping a prefix keeps the remaining ids distinct.
proof fn lemma_ids_unique_skip(s: Seq<EventView>, k: int)
    requires
        0 <= k <= s.len(),
        ids_unique(s),
    ensures
        ids_unique(s.skip(k)),
{
    assert forall|i: int, j: int| 0 <= i < j < s.skip(k).len() implies s.skip(k)[i].id != s.skip(
        k,
    )[j].id by {
        assert(s.skip(k)[i] == s[i + k]);
        assert(s.skip(k)[j] == s[j + k]);
    }
}

/// Merges `update` into the optional transaction sub-structure `target`,
/// field by field; creates the sub-structure when it was absent.
pub fn merge_tx(target: &mut Option<ActivityTx>, update: ActivityTx)
    ensures
        final(target).deep_view() == Some(
            spec_merge_tx(old(target).deep_view(), update.deep_view()),
        ),
{
    let mut tx = match target.take() {
        Some(t) => t,
        None => ActivityTx { source_tx_hash: None, dest_tx_hash: None },
    };
    if update.source_tx_hash.is_some() {
        tx.source_tx_hash = update.source_tx_hash;
    }
    if update.dest_tx_hash.is_some() {
        tx.dest_tx_hash = update.dest_tx_hash;
    }
    *target = Some(tx);
}

/// Returned by an append whose record's id is already present.
#[derive(Clone, Copy, PartialEq, Eq, Structural, Debug)]
pub struct DuplicateId;

/// The ordered event log of a single actor.
pub struct EventLog {
    entries: Vec<ActivityEvent>,
}

impl View for EventLog {
    type V = Seq<EventView>;

    closed spec fn view(&self) -> Seq<EventView> {
        self.entries.deep_view()
    }
}

impl EventLog {
    /// The log's invariant: record ids are pairwise distinct.
    pub open spec fn wf(&self) -> bool {
        ids_unique(self@)
    }

    /// An empty log.
    pub fn new() -> (log: Self)
        ensures
            log@ == Seq::<EventView>::empty(),
            log.wf(),
    {
        let log = EventLog { entries: Vec::new() };
        proof {
            assert(log@ =~= Seq::<EventView>::empty());
        }
        log
    }

    /// Wraps a sequence of records as a log, rejecting any duplicate id.
    pub fn from_entries(entries: Vec<ActivityEvent>) -> (r: Result<Self, DuplicateId>)
        ensures
            match r {
                Ok(log) => log@ == entries.deep_view() && log.wf(),
                Err(e) => e == DuplicateId && !ids_unique(entries.deep_view()),
            },
    {
        let ghost s = entries.deep_view();
        let n = entries.len();
        let mut i: usize = 0;
        while i < n
            invariant
                i <= n,
                n == s.len(),
                s == entries.deep_view(),
                forall|a: int, b: int| 0 <= a < b < i ==> s[a].id != s[b].id,
            decreases n - i,
        {
            let mut j: usize = 0;
            while j < i
                invariant
                    j <= i < n,
                    n == s.len(),
                    s == entries.deep_view(),
                    forall|b: int| 0 <= b < j ==> s[b].id != s[i as int].id,
                decreases i - j,
            {
                if entries[j].id == entries[i].id {
                    proof {
                        assert(0 <= j < i < s.len() && s[j as int].id == s[i as int].id);
                    }
                    return Err(DuplicateId);
                }
                j = j + 1;
            }
            i = i + 1;
        }
        Ok(EventLog { entries })
    }

    /// Hands the records back, in log order.
    pub fn into_entries(self) -> (entries: Vec<ActivityEvent>)
        ensures
            entries.deep_view() == self@,
    {
        self.entries
    }

    /// Read-only access to the records, in log order (oldest first).
    pub fn as_slice(&self) -> (entries: &Vec<ActivityEvent>)
        ensures
            entries.deep_view() == self@,
    {
        &self.entries
    }

    /// The number of records in the log.
    pub fn len(&self) -> (n: usize)
        ensures
            n == self@.len(),
    {
        self.entries.len()
    }

    /// The record at position `i` (0 is the oldest).
    pub fn get(&self, i: usize) -> (e: &ActivityEvent)
        requires
            i < self@.len(),
        ensures
            e.deep_view() == self@[i as int],
    {
        &self.entries[i]
    }

    /// Whether some record carries the id `id`.
    pub fn contains_id(&self, id: &String) -> (b: bool)
        ensures
            b == has_id(self@, id@),
    {
        let n = self.entries.len();
        let mut i: usize = 0;
        while i < n
            invariant
                i <= n,
                n == self@.len(),
                forall|j: int| 0 <= j < i ==> self@[j].id != id@,
            decreases n - i,
        {
            if self.entries[i].id == *id {
                proof {
                    assert(self@[i as int].id == id@);
                }
                return true;
            }
            i = i + 1;
        }
        false
    }

    /// The position of the first record carrying `id`, if any.
    pub fn find_index(&self, id: &String) -> (r: Option<usize>)
        ensures
            match r {
                Some(i) => i < self@.len() && self@[i as int].id == id@ && forall|j: int|
                    0 <= j < i ==> self@[j].id != id@,
                None => !has_id(self@, id@),
            },
    {
        let n = self.entries.len();
        let mut i: usize = 0;
        while i < n
            invariant
                i <= n,
                n == self@.len(),
                forall|j: int| 0 <= j < i ==> self@[j].id != id@,
            decreases n - i,
        {
            if self.entries[i].id == *id {
                return Some(i);
            }
            i = i + 1;
        }
        None
    }

    /// Appends `record` to the end of the log, unless its id is already
    /// present; then trims the oldest records until the length is within
    /// the effective retention limit.
    pub fn append(&mut self, record: ActivityEvent, retention: u32) -> (r: Result<(), DuplicateId>)
        requires
            old(self).wf(),
        ensures
            match r {
                Ok(()) => !has_id(old(self)@, record.deep_view().id) && final(self)@ == appended(
                    old(self)@,
                    record.deep_view(),
                    retention,
                ) && final(self)@.len() <= spec_effective_limit(retention),
                Err(e) => e == DuplicateId && has_id(old(self)@, record.deep_view().id)
                    && final(self)@ == old(self)@,
            },
            final(self).wf(),
    {
        let ghost s0 = self@;
        if self.contains_id(&record.id) {
            return Err(DuplicateId);
        }
        let ghost ev = record.deep_view();
        let limit = effective_limit(retention);
        self.entries.push(record);
        let ghost grown = s0.push(ev);
        proof {
            assert(self@ =~= grown);
        }
        while self.entries.len() > limit
            invariant
                limit == spec_effective_limit(retention),
                limit >= 1,
                1 <= self@.len() <= grown.len(),
                self@ == grown.skip(grown.len() - self@.len()),
                self@.len() >= limit || self@.len() == grown.len(),
            decreases self.entries.len(),
        {
            let ghost before = self@;
            self.entries.remove(0);
            proof {
                assert(self@ =~= before.skip(1));
                assert(before.skip(1) =~= grown.skip(grown.len() - before.len() + 1));
            }
        }
        proof {
            assert(self@ == appended(s0, ev, retention));
            lemma_ids_unique_skip(grown, grown.len() - self@.len());
        }
        Ok(())
    }

    /// Overwrites the status of the record at `i` and merges an optional
    /// transaction update into it; every other field and every other
    /// record is kept, in place and in order.
    pub fn update_record(&mut self, i: usize, status: ActivityStatus, tx: Option<ActivityTx>)
        requires
            i < old(self)@.len(),
        ensures
            final(self)@ == old(self)@.update(
                i as int,
                spec_updated_record(old(self)@[i as int], status, tx.deep_view()),
            ),
            old(self).wf() ==> final(self).wf(),
    {
        let ghost s0 = self@;
        let mut record = self.entries.remove(i);
        record.status = status;
        match tx {
            Some(update) => merge_tx(&mut record.tx, update),
            None => (),
        }
        self.entries.insert(i, record);
        proof {
            let u = spec_updated_record(s0[i as int], status, tx.deep_view());
            assert(record.deep_view() == u);
            assert(self@ =~= s0.update(i as int, u));
            if ids_unique(s0) {
                assert forall|a: int, b: int|
                    0 <= a < b < self@.len() implies self@[a].id != self@[b].id by {
                    assert(self@[a].id == s0[a].id);
                    assert(self@[b].id == s0[b].id);
                }
            }
        }
    }
}

} // verus!
