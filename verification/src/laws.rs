//! Properties that relate several operations of the library, stated over
//! the same models that the operations' own contracts use, and proved here
//! once and for all.

use vstd::prelude::*;

use crate::log::{
    appended, has_id, ids_unique, spec_merge_tx, spec_updated_record,
};
use crate::ops::{
    spec_append_event, spec_index_of, spec_update_event_status, OpError,
};
use crate::query::{
    spec_cursor_offset, spec_next_cursor, spec_next_cursor_at, spec_page_items,
    spec_page_items_at, spec_safe_limit,
};
use crate::retention::spec_effective_limit;
use crate::state::{ActivityStatus, EventView, TxView};

verus! {

/// A record appended for an actor stays in the log at least until the next
/// append: a second append under the same id — whatever else the record
/// carries — is refused with `EventExists`, and a refused append leaves
/// the log unchanged.
pub proof fn lemma_duplicate_append_rejected(
    s: Seq<EventView>,
    actor: Seq<char>,
    first: EventView,
    second: EventView,
    retention: u32,
)
    requires
        first.actor == actor,
        second.actor == actor,
        second.id == first.id,
        !has_id(s, first.id),
    ensures
        spec_append_event(s, actor, first, retention) == Ok::<Seq<EventView>, OpError>(
            appended(s, first, retention),
        ),
        spec_append_event(appended(s, first, retention), actor, second, retention) == Err::<
            Seq<EventView>,
            OpError,
        >(OpError::EventExists),
{
    let grown = s.push(first);
    let s1 = appended(s, first, retention);
    assert(spec_effective_limit(retention) >= 1);
    assert(s1.len() >= 1);
    assert(s1[s1.len() - 1] == grown[grown.len() - 1]);
    assert(has_id(s1, second.id));
}

/// The log after a sequence of appends, each applied with the same
/// retention, every one of them successful.
pub open spec fn append_all(
    s: Seq<EventView>,
    records: Seq<EventView>,
    retention: u32,
) -> Seq<EventView>
    decreases records.len(),
{
    if records.len() == 0 {
        s
    } else {
        append_all(appended(s, records[0], retention), records.skip(1), retention)
    }
}

/// How many of the oldest of `total` records fall to a bound of `limit`.
pub open spec fn spec_overflow(total: int, limit: int) -> int {
    if total > limit {
        total - limit
    } else {
        0
    }
}

/// Retention bound: a log within its limit stays within it under any
/// sequence of appends, and what survives is exactly the most recent
/// records — the tail of the appended sequence, oldest first.
pub proof fn lemma_retention_after_appends(
    s: Seq<EventView>,
    records: Seq<EventView>,
    retention: u32,
)
    requires
        s.len() <= spec_effective_limit(retention),
    ensures
        append_all(s, records, retention).len() <= spec_effective_limit(retention),
        append_all(s, records, retention) == (s + records).skip(
            spec_overflow(s.len() + records.len() as int, spec_effective_limit(retention)),
        ),
    decreases records.len(),
{
    let limit = spec_effective_limit(retention);
    if records.len() == 0 {
        assert(s + records =~= s);
        assert((s + records).skip(0) =~= s);
    } else {
        let head = records[0];
        let rest = records.skip(1);
        let grown = s.push(head);
        let k0 = spec_overflow(grown.len() as int, limit);
        let s1 = appended(s, head, retention);
        assert(s1 =~= grown.skip(k0));
        assert(s1.len() <= limit);
        lemma_retention_after_appends(s1, rest, retention);
        let k1 = spec_overflow(s1.len() + rest.len() as int, limit);
        assert(append_all(s, records, retention) == (s1 + rest).skip(k1));
        assert(grown + rest =~= s + records);
        assert(s1 + rest =~= (grown + rest).skip(k0));
        assert(((grown + rest).skip(k0)).skip(k1) =~= (grown + rest).skip(k0 + k1));
        assert(k0 + k1 == spec_overflow(s.len() + records.len() as int, limit));
        assert(append_all(s, records, retention) =~= (s + records).skip(
            spec_overflow(s.len() + records.len() as int, limit),
        ));
    }
}

/// A transaction update that carries no destination hash leaves the
/// destination hash as it was (and likewise for the source side).
pub proof fn lemma_merge_keeps_absent_sides(target: Option<TxView>, update: TxView)
    ensures
        update.dest_tx_hash is None ==> spec_merge_tx(target, update).dest_tx_hash == (match target {
            Some(t) => t.dest_tx_hash,
            None => None::<Seq<char>>,
        }),
        update.source_tx_hash is None ==> spec_merge_tx(target, update).source_tx_hash == (match target {
            Some(t) => t.source_tx_hash,
            None => None::<Seq<char>>,
        }),
{
}

/// Merging the same transaction update twice is the same as merging it
/// once, so a repeated status update settles on one record.
pub proof fn lemma_merge_idempotent(target: Option<TxView>, update: TxView)
    ensures
        spec_merge_tx(Some(spec_merge_tx(target, update)), update) == spec_merge_tx(target, update),
{
}

/// Applying the same status update twice yields the log the first
/// application yields: the second overwrite and the second merge change
/// nothing further.
pub proof fn lemma_update_idempotent(
    s: Seq<EventView>,
    id: Seq<char>,
    status: ActivityStatus,
    tx: Option<TxView>,
)
    requires
        ids_unique(s),
        has_id(s, id),
    ensures
        spec_update_event_status(s, id, status, tx) matches Ok(s1)
            && spec_update_event_status(s1, id, status, tx) == Ok::<Seq<EventView>, OpError>(s1),
{
    let i = spec_index_of(s, id);
    assert(0 <= i < s.len() && s[i].id == id);
    let u = spec_updated_record(s[i], status, tx);
    let s1 = s.update(i, u);
    assert(u.id == id);
    assert(s1[i] == u);
    assert(has_id(s1, id));
    assert forall|a: int, b: int| 0 <= a < b < s1.len() implies s1[a].id != s1[b].id by {
        assert(s1[a].id == s[a].id);
        assert(s1[b].id == s[b].id);
    }
    let j = spec_index_of(s1, id);
    assert(0 <= j < s1.len() && s1[j].id == id);
    assert(j == i);
    lemma_merge_idempotent(s[i].tx, match tx {
        Some(u2) => u2,
        None => TxView { source_tx_hash: None, dest_tx_hash: None },
    });
    assert(spec_updated_record(u, status, tx) == u);
    assert(s1.update(i, u) =~= s1);
}

/// The pages reached by following the next cursor from offset `off`,
/// concatenated in the order they are served.
pub open spec fn collected_pages(s: Seq<EventView>, limit: Option<u32>, off: int) -> Seq<EventView>
    decreases s.len() - off when 0 <= off
{
    if off < 0 || off >= s.len() {
        Seq::<EventView>::empty()
    } else {
        spec_page_items_at(s, limit, off) + (match spec_next_cursor_at(s, limit, off) {
            Some(next) => collected_pages(s, limit, next),
            None => Seq::<EventView>::empty(),
        })
    }
}

/// Pagination completeness from any offset: following the next cursor and
/// concatenating the pages serves exactly the records from `off` on, each
/// once, in order.
pub proof fn lemma_pages_from_offset(s: Seq<EventView>, limit: Option<u32>, off: int)
    requires
        0 <= off <= s.len(),
    ensures
        collected_pages(s, limit, off) == s.skip(off),
    decreases s.len() - off,
{
    if off >= s.len() {
        assert(collected_pages(s, limit, off) =~= s.skip(off));
    } else {
        let end = if off + spec_safe_limit(limit) < s.len() {
            off + spec_safe_limit(limit)
        } else {
            s.len() as int
        };
        assert(spec_safe_limit(limit) >= 1);
        lemma_pages_from_offset(s, limit, end);
        assert(collected_pages(s, limit, off) =~= s.subrange(off, end) + s.skip(end));
        assert(s.subrange(off, end) + s.skip(end) =~= s.skip(off));
    }
}

/// Pagination completeness: on a log that does not change between reads,
/// the pages obtained by walking the next cursor from the front, with any
/// fixed limit, reproduce the whole log in order exactly once.
pub proof fn lemma_pagination_completeness(s: Seq<EventView>, limit: Option<u32>)
    ensures
        collected_pages(s, limit, 0) == s,
{
    lemma_pages_from_offset(s, limit, 0);
    assert(s.skip(0) =~= s);
}

/// An exhausted cursor — at or past the end of the log — is served an
/// empty page with no next cursor, never an error.
pub proof fn lemma_exhausted_cursor(s: Seq<EventView>, limit: Option<u32>, cursor: Option<u64>)
    requires
        spec_cursor_offset(cursor) >= s.len(),
    ensures
        spec_page_items(s, limit, cursor) == Seq::<EventView>::empty(),
        spec_next_cursor(s, limit, cursor) is None,
{
}

} // verus!
