//! What holds of the coordinator over many requests: a key never has two
//! fetches in flight, requests for one stale key start one fetch between
//! them, and what happens to one key leaves every other key alone.
//!
//! The fetches counted here are those that requests start and that hold a
//! slot in the pending set. A fetch made for a caller who waits for its
//! result takes no slot and is not counted.

use crate::cache::fresh;
use crate::coordinator::{after_fetch, after_request, key_state, CoordinatorView, KeyState};
use crate::time::Timestamp;
use vstd::multiset::Multiset;
use vstd::prelude::*;

verus! {

/// The coordinator after requests for `key` at the instants `nows`, one
/// after the other, while the key's entry keeps the timestamp `cached_at`
/// and no fetch ends.
pub open spec fn after_requests(
    s: CoordinatorView,
    key: Seq<char>,
    cached_at: Option<Timestamp>,
    nows: Seq<Timestamp>,
) -> CoordinatorView
    decreases nows.len(),
{
    if nows.len() == 0 {
        s
    } else {
        after_request(
            after_requests(s, key, cached_at, nows.drop_last()),
            key,
            cached_at,
            nows.last(),
        )
    }
}

/// The state in which the request number `i` of such a run finds the key.
pub open spec fn state_at_request(
    s: CoordinatorView,
    key: Seq<char>,
    cached_at: Option<Timestamp>,
    nows: Seq<Timestamp>,
    i: int,
) -> KeyState {
    key_state(after_requests(s, key, cached_at, nows.take(i)), key, cached_at, nows[i])
}

/// The number of fetches that such a run of requests starts.
pub open spec fn fetches_started(
    s: CoordinatorView,
    key: Seq<char>,
    cached_at: Option<Timestamp>,
    nows: Seq<Timestamp>,
) -> nat
    decreases nows.len(),
{
    if nows.len() == 0 {
        0
    } else {
        let earlier = nows.drop_last();
        let started_now: nat = if key_state(
            after_requests(s, key, cached_at, earlier),
            key,
            cached_at,
            nows.last(),
        ) is Stale {
            1
        } else {
            0
        };
        fetches_started(s, key, cached_at, earlier) + started_now
    }
}

/// Requests change nothing but the pending set, and that only by adding
/// the requested key.
proof fn lemma_requests_only_add_the_key(
    s: CoordinatorView,
    key: Seq<char>,
    cached_at: Option<Timestamp>,
    nows: Seq<Timestamp>,
)
    ensures
        after_requests(s, key, cached_at, nows).ttl_hours == s.ttl_hours,
        after_requests(s, key, cached_at, nows).failed == s.failed,
        after_requests(s, key, cached_at, nows).pending == s.pending || after_requests(
            s,
            key,
            cached_at,
            nows,
        ).pending == s.pending.insert(key),
        fetches_started(s, key, cached_at, nows) > 0 ==> after_requests(
            s,
            key,
            cached_at,
            nows,
        ).pending.contains(key),
        s.pending.contains(key) ==> fetches_started(s, key, cached_at, nows) == 0,
        fetches_started(s, key, cached_at, nows) <= 1,
    decreases nows.len(),
{
    if nows.len() > 0 {
        lemma_requests_only_add_the_key(s, key, cached_at, nows.drop_last());
        assert(s.pending.insert(key).insert(key) =~= s.pending.insert(key));
        if s.pending.contains(key) {
            assert(s.pending.insert(key) =~= s.pending);
        }
    }
}

/// Single flight. However many requests arrive for a key while no fetch
/// ends, they start at most one fetch between them.
pub proof fn lemma_at_most_one_fetch(
    s: CoordinatorView,
    key: Seq<char>,
    cached_at: Option<Timestamp>,
    nows: Seq<Timestamp>,
)
    ensures
        fetches_started(s, key, cached_at, nows) <= 1,
{
    lemma_requests_only_add_the_key(s, key, cached_at, nows);
}

/// Single flight, for a stale key. Let a key have no fresh entry at any of
/// the instants `nows`, no failure on record and no fetch in flight. Then
/// the requests at these instants start exactly one fetch, the first of
/// them does so, and every one of them is answered with the placeholder:
/// none finds the key failed.
pub proof fn lemma_single_flight(
    s: CoordinatorView,
    key: Seq<char>,
    cached_at: Option<Timestamp>,
    nows: Seq<Timestamp>,
)
    requires
        nows.len() >= 1,
        !s.pending.contains(key),
        !s.failed.contains_key(key),
        forall|i: int| 0 <= i < nows.len() ==> !fresh(cached_at, #[trigger] nows[i], s.ttl_hours),
    ensures
        fetches_started(s, key, cached_at, nows) == 1,
        state_at_request(s, key, cached_at, nows, 0) is Stale,
        forall|i: int|
            1 <= i < nows.len() ==> #[trigger] state_at_request(s, key, cached_at, nows, i)
                is Pending,
        after_requests(s, key, cached_at, nows).pending.contains(key),
    decreases nows.len(),
{
    let earlier = nows.drop_last();
    assert(nows.take(0) =~= Seq::<Timestamp>::empty());
    if nows.len() == 1 {
        assert(earlier =~= Seq::<Timestamp>::empty());
        assert(fetches_started(s, key, cached_at, earlier) == 0);
        assert(after_requests(s, key, cached_at, earlier) == s);
    } else {
        assert forall|i: int| 0 <= i < earlier.len() implies !fresh(
            cached_at,
            #[trigger] earlier[i],
            s.ttl_hours,
        ) by {
            assert(earlier[i] == nows[i]);
        }
        lemma_single_flight(s, key, cached_at, earlier);
        lemma_requests_only_add_the_key(s, key, cached_at, earlier);
        assert(earlier.take(0) =~= Seq::<Timestamp>::empty());
        assert forall|i: int| 1 <= i < nows.len() implies #[trigger] state_at_request(
            s,
            key,
            cached_at,
            nows,
            i,
        ) is Pending by {
            if i < earlier.len() {
                assert(nows.take(i) =~= earlier.take(i));
                assert(nows[i] == earlier[i]);
                assert(state_at_request(s, key, cached_at, earlier, i) is Pending);
            } else {
                assert(nows.take(i) =~= earlier);
            }
        }
    }
}

/// What happens to one key leaves the others alone: neither a request for
/// `key` nor the end of its fetch, failed or not, changes the state in which
/// a request finds any other key.
pub proof fn lemma_failure_isolation(
    s: CoordinatorView,
    key: Seq<char>,
    error: Option<Seq<char>>,
    other: Seq<char>,
    cached_at: Option<Timestamp>,
    now: Timestamp,
)
    requires
        other != key,
    ensures
        key_state(after_fetch(s, key, error), other, cached_at, now) == key_state(
            s,
            other,
            cached_at,
            now,
        ),
        forall|key_cached_at: Option<Timestamp>, key_now: Timestamp|
            key_state(
                #[trigger] after_request(s, key, key_cached_at, key_now),
                other,
                cached_at,
                now,
            ) == key_state(s, other, cached_at, now),
{
}

/// A coordinator together with the fetches that are under way: how many
/// each key has.
pub struct System {
    pub coordinator: CoordinatorView,
    pub in_flight: Multiset<Seq<char>>,
}

/// What can happen to the system.
pub enum Event {
    /// A request for `key` at `now`, which finds the timestamp `cached_at`.
    Request { key: Seq<char>, cached_at: Option<Timestamp>, now: Timestamp },
    /// The fetch for `key` ends, with `error` if it failed.
    FetchEnds { key: Seq<char>, error: Option<Seq<char>> },
}

/// The system at start: nothing pending, nothing failed, nothing in flight.
pub open spec fn initial(ttl_hours: i64) -> System {
    System {
        coordinator: CoordinatorView {
            ttl_hours,
            pending: Set::<Seq<char>>::empty(),
            failed: Map::<Seq<char>, Seq<char>>::empty(),
        },
        in_flight: Multiset::<Seq<char>>::empty(),
    }
}

/// A request can always happen; a fetch can end only if it is under way.
pub open spec fn possible(sys: System, e: Event) -> bool {
    match e {
        Event::Request { .. } => true,
        Event::FetchEnds { key, .. } => sys.in_flight.count(key) > 0,
    }
}

/// The system after an event. A request that finds its key stale starts a
/// fetch; the end of a fetch is reported to the coordinator.
pub open spec fn step(sys: System, e: Event) -> System {
    match e {
        Event::Request { key, cached_at, now } => System {
            coordinator: after_request(sys.coordinator, key, cached_at, now),
            in_flight: if key_state(sys.coordinator, key, cached_at, now) is Stale {
                sys.in_flight.insert(key)
            } else {
                sys.in_flight
            },
        },
        Event::FetchEnds { key, error } => System {
            coordinator: after_fetch(sys.coordinator, key, error),
            in_flight: sys.in_flight.remove(key),
        },
    }
}

/// Every pending key has one fetch in flight, and every other key none.
pub open spec fn one_fetch_per_pending_key(sys: System) -> bool {
    forall|k: Seq<char>|
        #[trigger] sys.in_flight.count(k) == (if sys.coordinator.pending.contains(k) {
            1nat
        } else {
            0nat
        })
}

/// The events can happen in this order, starting from `sys`.
pub open spec fn can_run(sys: System, events: Seq<Event>) -> bool
    decreases events.len(),
{
    events.len() == 0 || (can_run(sys, events.drop_last()) && possible(
        run(sys, events.drop_last()),
        events.last(),
    ))
}

/// The system after the events, one after the other.
pub open spec fn run(sys: System, events: Seq<Event>) -> System
    decreases events.len(),
{
    if events.len() == 0 {
        sys
    } else {
        step(run(sys, events.drop_last()), events.last())
    }
}

/// One event keeps the fetches in flight in step with the pending set.
pub proof fn lemma_step_keeps_one_fetch_per_key(sys: System, e: Event)
    requires
        one_fetch_per_pending_key(sys),
        possible(sys, e),
    ensures
        one_fetch_per_pending_key(step(sys, e)),
{
    let next = step(sys, e);
    assert forall|k: Seq<char>| #[trigger]
        next.in_flight.count(k) == (if next.coordinator.pending.contains(k) {
            1nat
        } else {
            0nat
        }) by {
        assert(sys.in_flight.count(k) == (if sys.coordinator.pending.contains(k) {
            1nat
        } else {
            0nat
        }));
        match e {
            Event::Request { key, cached_at, now } => {
                assert(sys.in_flight.count(key) == (if sys.coordinator.pending.contains(key) {
                    1nat
                } else {
                    0nat
                }));
            },
            Event::FetchEnds { key, error } => {
                assert(sys.in_flight.count(key) == (if sys.coordinator.pending.contains(key) {
                    1nat
                } else {
                    0nat
                }));
            },
        }
    }
}

/// At most one fetch in flight. Whatever requests arrive, for whatever keys
/// and at whatever times, and whenever the fetches end: at every moment a
/// key has one fetch in flight if it is pending and none if it is not.
pub proof fn lemma_at_most_one_in_flight(ttl_hours: i64, events: Seq<Event>, key: Seq<char>)
    requires
        can_run(initial(ttl_hours), events),
    ensures
        one_fetch_per_pending_key(run(initial(ttl_hours), events)),
        run(initial(ttl_hours), events).in_flight.count(key) <= 1,
    decreases events.len(),
{
    let start = initial(ttl_hours);
    if events.len() == 0 {
        assert forall|k: Seq<char>| #[trigger]
            start.in_flight.count(k) == (if start.coordinator.pending.contains(k) {
                1nat
            } else {
                0nat
            }) by {}
    } else {
        lemma_at_most_one_in_flight(ttl_hours, events.drop_last(), key);
        lemma_step_keeps_one_fetch_per_key(run(start, events.drop_last()), events.last());
    }
    let end = run(start, events);
    assert(end.in_flight.count(key) == (if end.coordinator.pending.contains(key) {
        1nat
    } else {
        0nat
    }));
}

} // verus!
