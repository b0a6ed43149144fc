//! The read operations: cursor-paginated listing and lookup by id.
//!
//! A page is the contiguous slice `[cursor, cursor + limit)` of the log,
//! clipped to its length, in log order (oldest first). A cursor at or past
//! the end of the log is a normal terminal state — an empty page, not an
//! error — and the next cursor is reported only while records remain.

use vstd::prelude::*;

use crate::log::{has_id, EventLog};
use crate::ops::stored_view;
use crate::state::{ActivityEvent, EventView};
use crate::{Query, QueryResponse};

verus! {

/// The page size actually served: a supplied limit of 0 is coerced to 1,
/// an absent limit defaults to 20.
pub open spec fn spec_safe_limit(limit: Option<u32>) -> int {
    match limit {
        Some(v) => if v == 0 {
            1
        } else {
            v as int
        },
        None => 20,
    }
}

/// The offset a cursor stands for: an absent cursor starts at the front.
pub open spec fn spec_cursor_offset(cursor: Option<u64>) -> int {
    match cursor {
        Some(c) => c as int,
        None => 0,
    }
}

/// Where the slice served from offset `off` in a log of length `len`
/// ends (exclusive).
pub open spec fn spec_page_end_at(len: int, limit: Option<u32>, off: int) -> int {
    let end = off + spec_safe_limit(limit);
    if end < len {
        end
    } else {
        len
    }
}

/// The records served from offset `off`, in log order.
pub open spec fn spec_page_items_at(
    s: Seq<EventView>,
    limit: Option<u32>,
    off: int,
) -> Seq<EventView> {
    if off >= s.len() {
        Seq::<EventView>::empty()
    } else {
        s.subrange(off, spec_page_end_at(s.len() as int, limit, off))
    }
}

/// The offset of the page following the one served from `off`: present
/// exactly while records remain past it.
pub open spec fn spec_next_cursor_at(s: Seq<EventView>, limit: Option<u32>, off: int) -> Option<
    int,
> {
    if off >= s.len() {
        None
    } else {
        let end = spec_page_end_at(s.len() as int, limit, off);
        if end < s.len() {
            Some(end)
        } else {
            None
        }
    }
}

/// The records of the served page, in log order.
pub open spec fn spec_page_items(
    s: Seq<EventView>,
    limit: Option<u32>,
    cursor: Option<u64>,
) -> Seq<EventView> {
    spec_page_items_at(s, limit, spec_cursor_offset(cursor))
}

/// The cursor of the following page: present exactly while records remain
/// past the served page.
pub open spec fn spec_next_cursor(
    s: Seq<EventView>,
    limit: Option<u32>,
    cursor: Option<u64>,
) -> Option<int> {
    spec_next_cursor_at(s, limit, spec_cursor_offset(cursor))
}

/// One served page: the records and, while any remain, the next cursor.
#[derive(Debug, PartialEq)]
pub struct EventsPage {
    pub items: Vec<ActivityEvent>,
    pub next_cursor: Option<u64>,
}

/// Serves the page of `log` that `cursor` and `limit` select.
pub fn list_events(log: &EventLog, limit: Option<u32>, cursor: Option<u64>) -> (page: EventsPage)
    ensures
        page.items.deep_view() == spec_page_items(log@, limit, cursor),
        match page.next_cursor {
            Some(c) => spec_next_cursor(log@, limit, cursor) == Some(c as int),
            None => spec_next_cursor(log@, limit, cursor) is None,
        },
{
    let n = log.len();
    let c: u64 = match cursor {
        Some(value) => value,
        None => 0,
    };
    if c >= n as u64 {
        let page = EventsPage { items: Vec::new(), next_cursor: None };
        proof {
            assert(page.items.deep_view() =~= spec_page_items(log@, limit, cursor));
        }
        return page;
    }
    let offset = c as usize;
    let safe_limit: usize = match limit {
        Some(v) => if v == 0 {
            1
        } else {
            v as usize
        },
        None => 20,
    };
    let end = if n - offset < safe_limit {
        n
    } else {
        offset + safe_limit
    };
    let mut items: Vec<ActivityEvent> = Vec::new();
    let mut i: usize = offset;
    while i < end
        invariant
            offset <= i <= end <= n,
            n == log@.len(),
            end == spec_page_end_at(log@.len() as int, limit, spec_cursor_offset(cursor)),
            items.deep_view() =~= log@.subrange(offset as int, i as int),
        decreases end - i,
    {
        let ghost prev = items.deep_view();
        items.push(log.get(i).clone());
        proof {
            assert(items.deep_view() =~= prev.push(log@[i as int]));
            assert(log@.subrange(offset as int, i + 1) =~= log@.subrange(
                offset as int,
                i as int,
            ).push(log@[i as int]));
        }
        i = i + 1;
    }
    let next_cursor = if end < n {
        Some(end as u64)
    } else {
        None
    };
    proof {
        assert(items.deep_view() =~= spec_page_items(log@, limit, cursor));
    }
    EventsPage { items, next_cursor }
}

/// Looks the record carrying `id` up in `log`; an absent id is a valid
/// empty result, not an error. The first match is served (by the log
/// invariant there is at most one).
pub fn get_event(log: &EventLog, id: &String) -> (r: Option<ActivityEvent>)
    ensures
        match r {
            Some(e) => exists|i: int|
                #![auto]
                0 <= i < log@.len() && log@[i].id == id@ && e.deep_view() == log@[i] && (forall|
                    j: int,
                |
                    0 <= j < i ==> log@[j].id != id@),
            None => !has_id(log@, id@),
        },
{
    match log.find_index(id) {
        Some(i) => Some(log.get(i).clone()),
        None => None,
    }
}

/// Serves one read request against the log loaded for its actor key
/// (`None` when the store holds nothing for that key).
pub fn execute_query(stored: &Option<EventLog>, query: &Query) -> (r: QueryResponse)
    ensures
        match query {
            Query::GetEvents { actor, limit, cursor } => r matches QueryResponse::Events {
                items,
                next_cursor,
            } && items.deep_view() == spec_page_items(stored_view(*stored), *limit, *cursor)
                && (match next_cursor {
                Some(c) => spec_next_cursor(stored_view(*stored), *limit, *cursor) == Some(c as int),
                None => spec_next_cursor(stored_view(*stored), *limit, *cursor) is None,
            }),
            Query::GetEvent { actor, id } => r matches QueryResponse::Event { event } && (match event {
                Some(e) => exists|i: int|
                    #![auto]
                    0 <= i < stored_view(*stored).len() && stored_view(*stored)[i].id == id@
                        && e.deep_view() == stored_view(*stored)[i] && (forall|j: int|
                        0 <= j < i ==> stored_view(*stored)[j].id != id@),
                None => !has_id(stored_view(*stored), id@),
            }),
        },
{
    match query {
        Query::GetEvents { actor: _, limit, cursor } => match stored {
            Some(log) => {
                let page = list_events(log, *limit, *cursor);
                QueryResponse::Events { items: page.items, next_cursor: page.next_cursor }
            },
            None => {
                let items: Vec<ActivityEvent> = Vec::new();
                proof {
                    assert(items.deep_view() =~= spec_page_items(
                        stored_view(*stored),
                        *limit,
                        *cursor,
                    ));
                }
                QueryResponse::Events { items, next_cursor: None }
            },
        },
        Query::GetEvent { actor: _, id } => match stored {
            Some(log) => QueryResponse::Event { event: get_event(log, id) },
            None => QueryResponse::Event { event: None },
        },
    }
}

} // verus!
