//! The reading history: which of a batch of events is the latest.

use crate::model::{events_view, ReadingEvent, ReadingEventView};
use crate::text::{
    comes_before, lex_less, lex_less_irreflexive, lex_less_total, lex_less_transitive,
};
use vstd::prelude::*;

verus! {

/// The account that the history is asked for where the server does not tell
/// which account is logged in.
pub const DEFAULT_USER_ID: i64 = 1;

/// Event `i` is the latest of a batch: no event has a greater timestamp, and
/// every event before it has a smaller one. Timestamps are ordered as texts;
/// of events with the same timestamp the first in the batch is the latest.
pub open spec fn is_latest(events: Seq<ReadingEventView>, i: int) -> bool {
    &&& 0 <= i < events.len()
    &&& forall|j: int|
        0 <= j < events.len() ==> !lex_less(events[i].read_date, #[trigger] events[j].read_date)
    &&& forall|j: int| 0 <= j < i ==> lex_less(#[trigger] events[j].read_date, events[i].read_date)
}

/// The index of the latest event of a batch that is not empty.
pub open spec fn latest_index(events: Seq<ReadingEventView>) -> int {
    choose|i: int| is_latest(events, i)
}

/// The latest event of a batch, where it has one.
pub open spec fn latest_event(events: Seq<ReadingEventView>) -> Option<ReadingEventView> {
    if events.len() == 0 {
        None
    } else {
        Some(events[latest_index(events)])
    }
}

/// The account id that the history is asked for.
pub open spec fn user_id_of(extracted: Option<i64>) -> i64 {
    match extracted {
        Some(id) => id,
        None => DEFAULT_USER_ID,
    }
}

/// A batch has at most one latest event.
pub proof fn latest_is_unique(events: Seq<ReadingEventView>, i: int, j: int)
    requires
        is_latest(events, i),
        is_latest(events, j),
    ensures
        i == j,
{
    if i < j {
        assert(lex_less(events[i].read_date, events[j].read_date));
        assert(!lex_less(events[i].read_date, events[j].read_date));
    } else if j < i {
        assert(lex_less(events[j].read_date, events[i].read_date));
        assert(!lex_less(events[j].read_date, events[i].read_date));
    }
}

/// Every batch that is not empty has a latest event.
pub proof fn latest_exists(events: Seq<ReadingEventView>)
    requires
        events.len() > 0,
    ensures
        is_latest(events, latest_index(events)),
    decreases events.len(),
{
    let last = events.len() - 1;
    let found: int;
    if events.len() == 1 {
        lex_less_irreflexive(events[0].read_date);
        found = 0;
    } else {
        let front = events.drop_last();
        latest_exists(front);
        let best = latest_index(front);
        let old_best = events[best].read_date;
        let new = events[last].read_date;
        assert(front[best] == events[best]);
        if lex_less(old_best, new) {
            assert forall|j: int| 0 <= j < events.len() implies !lex_less(
                new,
                #[trigger] events[j].read_date,
            ) by {
                if j < last {
                    assert(front[j] == events[j]);
                    if lex_less(new, events[j].read_date) {
                        lex_less_transitive(old_best, new, events[j].read_date);
                    }
                } else {
                    lex_less_irreflexive(new);
                }
            }
            assert forall|j: int| 0 <= j < last implies lex_less(
                #[trigger] events[j].read_date,
                new,
            ) by {
                assert(front[j] == events[j]);
                lex_less_total(events[j].read_date, old_best);
                if events[j].read_date != old_best {
                    lex_less_transitive(events[j].read_date, old_best, new);
                }
            }
            found = last;
        } else {
            assert forall|j: int| 0 <= j < events.len() implies !lex_less(
                old_best,
                #[trigger] events[j].read_date,
            ) by {
                if j < last {
                    assert(front[j] == events[j]);
                }
            }
            assert forall|j: int| 0 <= j < best implies lex_less(
                #[trigger] events[j].read_date,
                old_best,
            ) by {
                assert(front[j] == events[j]);
            }
            found = best;
        }
    }
    assert(is_latest(events, found));
}

/// The latest event does not depend on the order of the batch: two batches
/// that hold the same events have latest events with the same timestamp, and
/// where only one event has that timestamp they have the same latest event.
pub proof fn latest_event_ignores_order(a: Seq<ReadingEventView>, b: Seq<ReadingEventView>)
    requires
        a.to_multiset() == b.to_multiset(),
        a.len() > 0,
    ensures
        latest_event(a) is Some,
        latest_event(b) is Some,
        latest_event(a)->0.read_date == latest_event(b)->0.read_date,
        (forall|k: int| 0 <= k < a.len() && k != latest_index(a) ==> (#[trigger] a[k]).read_date
            != latest_event(a)->0.read_date) ==> latest_event(a) == latest_event(b),
{
    a.to_multiset_ensures();
    b.to_multiset_ensures();
    latest_exists(a);
    latest_exists(b);
    latest_ignores_order(a, b, latest_index(a), latest_index(b));
}

/// The same, said of any two indices that are latest in their batches.
pub proof fn latest_ignores_order(
    a: Seq<ReadingEventView>,
    b: Seq<ReadingEventView>,
    i: int,
    j: int,
)
    requires
        a.to_multiset() == b.to_multiset(),
        is_latest(a, i),
        is_latest(b, j),
    ensures
        a[i].read_date == b[j].read_date,
        (forall|k: int| 0 <= k < a.len() && k != i ==> (#[trigger] a[k]).read_date
            != a[i].read_date) ==> a[i] == b[j],
{
    a.to_multiset_ensures();
    b.to_multiset_ensures();
    assert(a.contains(a[i]));
    assert(b.contains(b[j]));
    assert(a.to_multiset().count(a[i]) > 0);
    assert(b.to_multiset().count(b[j]) > 0);
    assert(b.contains(a[i]));
    assert(a.contains(b[j]));
    let k = choose|k: int| 0 <= k < b.len() && b[k] == a[i];
    let m = choose|m: int| 0 <= m < a.len() && a[m] == b[j];
    assert(!lex_less(b[j].read_date, b[k].read_date));
    assert(!lex_less(a[i].read_date, a[m].read_date));
    lex_less_total(a[i].read_date, b[j].read_date);
}

/// Picks the latest event of a batch: the first of those with the greatest
/// timestamp. An empty batch has none.
pub fn most_recent(events: &Vec<ReadingEvent>) -> (latest: Option<usize>)
    ensures
        latest is None <==> events.len() == 0,
        latest matches Some(i) ==> is_latest(events_view(events@), i as int) && i
            == latest_index(events_view(events@)),
{
    if events.len() == 0 {
        return None;
    }
    let ghost all = events_view(events@);
    let mut best: usize = 0;
    let mut i: usize = 1;
    proof {
        lex_less_irreflexive(all[0].read_date);
    }
    while i < events.len()
        invariant
            all == events_view(events@),
            1 <= i <= events.len(),
            best < i,
            forall|j: int| 0 <= j < i ==> !lex_less(all[best as int].read_date, #[trigger] all[j].read_date),
            forall|j: int| 0 <= j < best ==> lex_less(#[trigger] all[j].read_date, all[best as int].read_date),
        decreases events.len() - i,
    {
        assert(all[i as int] == events@[i as int]@);
        assert(all[best as int] == events@[best as int]@);
        if comes_before(events[best].read_date.as_str(), events[i].read_date.as_str()) {
            proof {
                let old_best = all[best as int].read_date;
                let new_best = all[i as int].read_date;
                assert forall|j: int| 0 <= j <= i implies !lex_less(
                    new_best,
                    #[trigger] all[j].read_date,
                ) by {
                    if j < i {
                        if lex_less(new_best, all[j].read_date) {
                            lex_less_transitive(old_best, new_best, all[j].read_date);
                        }
                    } else {
                        lex_less_irreflexive(new_best);
                    }
                }
                assert forall|j: int| 0 <= j < i implies lex_less(
                    #[trigger] all[j].read_date,
                    new_best,
                ) by {
                    lex_less_total(all[j].read_date, old_best);
                    if all[j].read_date == old_best {
                    } else {
                        assert(lex_less(all[j].read_date, old_best));
                        lex_less_transitive(all[j].read_date, old_best, new_best);
                    }
                }
            }
            best = i;
        }
        i += 1;
    }
    proof {
        assert(is_latest(all, best as int));
        latest_is_unique(all, best as int, latest_index(all));
    }
    Some(best)
}

/// The account id that the history is asked for: the id that the server gave,
/// or the default where it gave none.
pub fn user_id_or_default(extracted: Option<i64>) -> (id: i64)
    ensures
        id == user_id_of(extracted),
{
    match extracted {
        Some(id) => id,
        None => DEFAULT_USER_ID,
    }
}

} // verus!
