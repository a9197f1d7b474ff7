//! What a sample tells of its request, added up from what happened to it.
//!
//! The sums here are taken over the events alone. They say what a request must report without
//! following it step by step.

use vstd::prelude::*;

use crate::metrics::clock::Moment;
use crate::metrics::context::{ActivePhase, ContextView, PendingView, PhaseId};
use crate::metrics::laws::RequestEvent;
use crate::metrics::operation::BoundedOperationKind;
use crate::metrics::phase::{RequestMetricPhase, RequestMetricResult};
use crate::metrics::sample::SampleView;
use crate::metrics::state::StateView;

verus! {

/// The attempts that were counted, added up.
pub open spec fn attempts_in(events: Seq<RequestEvent>) -> nat
    decreases events.len(),
{
    if events.len() == 0 {
        0
    } else {
        attempts_in(events.drop_last()) + (match events.last() {
            RequestEvent::Attempted { count } => count as nat,
            _ => 0,
        })
    }
}

/// The time from one moment to another in nanoseconds: at least 1, and at most what 64 bits hold.
pub open spec fn measured(start: Moment, end: Moment) -> nat {
    let nanos = end.nanos - start.nanos;
    if nanos < 1 {
        1
    } else if nanos > 0xffff_ffff_ffff_ffff {
        0xffff_ffff_ffff_ffff
    } else {
        nanos as nat
    }
}

/// A sum as a sample reports it.
pub open spec fn at_most(sum: nat, largest: nat) -> nat {
    if sum > largest {
        largest
    } else {
        sum
    }
}

/// How many phases were started.
pub open spec fn starts_in(events: Seq<RequestEvent>) -> nat
    decreases events.len(),
{
    if events.len() == 0 {
        0
    } else {
        starts_in(events.drop_last()) + (if events.last() is Started {
            1nat
        } else {
            0nat
        })
    }
}

/// The phase that was started after `count` others and when, while no timer of the request with this
/// namespace and this number has closed it.
pub open spec fn running(
    events: Seq<RequestEvent>,
    namespace: u64,
    number: u64,
    count: nat,
) -> Option<(RequestMetricPhase, Moment)>
    decreases events.len(),
{
    if events.len() == 0 {
        None
    } else {
        let before = running(events.drop_last(), namespace, number, count);
        match events.last() {
            RequestEvent::Started { phase, at } => if starts_in(events.drop_last()) == count {
                Some((phase, at))
            } else {
                before
            },
            RequestEvent::Closed { id, .. } => match id {
                Some(id) => if id.namespace == namespace && id.request == number && id.phase
                    == count {
                    None
                } else {
                    before
                },
                None => before,
            },
            _ => before,
        }
    }
}

/// The nanoseconds of a phase that were recorded as such or measured from its start until its timer
/// was first closed.
pub open spec fn spent(
    events: Seq<RequestEvent>,
    namespace: u64,
    number: u64,
    phase: RequestMetricPhase,
) -> nat
    decreases events.len(),
{
    if events.len() == 0 {
        0
    } else {
        spent(events.drop_last(), namespace, number, phase) + (match events.last() {
            RequestEvent::Recorded { phase: recorded, nanos } => if recorded == phase {
                nanos as nat
            } else {
                0
            },
            RequestEvent::Closed { id, at } => match id {
                Some(id) => if id.namespace == namespace && id.request == number {
                    match running(events.drop_last(), namespace, number, id.phase as nat) {
                        Some((started, start)) => if started == phase {
                            measured(start, at)
                        } else {
                            0
                        },
                        None => 0,
                    }
                } else {
                    0
                },
                None => 0,
            },
            _ => 0,
        })
    }
}

/// The nanoseconds until a moment of the phases that still run, of the first `count` that were
/// started.
pub open spec fn unfinished(
    events: Seq<RequestEvent>,
    namespace: u64,
    number: u64,
    phase: RequestMetricPhase,
    at: Moment,
    count: nat,
) -> nat
    decreases count,
{
    if count == 0 {
        0
    } else {
        unfinished(events, namespace, number, phase, at, (count - 1) as nat) + (match running(
            events,
            namespace,
            number,
            (count - 1) as nat,
        ) {
            Some((started, start)) => if started == phase {
                measured(start, at)
            } else {
                0
            },
            None => 0,
        })
    }
}

/// The nanoseconds of a phase of a request that was selected at `start` and ends at `at`: what was
/// spent, what still runs, and for the total the time from the selection.
pub open spec fn reported(
    events: Seq<RequestEvent>,
    pending: PendingView,
    phase: RequestMetricPhase,
    at: Moment,
) -> nat {
    spent(events, pending.namespace, pending.number, phase) + unfinished(
        events,
        pending.namespace,
        pending.number,
        phase,
        at,
        starts_in(events),
    ) + (if phase == RequestMetricPhase::Total {
        measured(pending.started_at, at)
    } else {
        0
    })
}

/// Whether a phase that still runs is among the open ones.
pub open spec fn is_open(
    active: Seq<ActivePhase>,
    events: Seq<RequestEvent>,
    namespace: u64,
    number: u64,
    count: nat,
) -> bool {
    running(events, namespace, number, count) is Some ==> exists|i: int|
        0 <= i < active.len() && (#[trigger] active[i]).id == count
}

/// Whether the open phases of a request are those that still run.
pub open spec fn tracks(
    active: Seq<ActivePhase>,
    events: Seq<RequestEvent>,
    namespace: u64,
    number: u64,
    count: nat,
) -> bool {
    &&& forall|i: int|
        0 <= i < active.len() ==> (#[trigger] active[i]).id < count && running(
            events,
            namespace,
            number,
            active[i].id as nat,
        ) == Some((active[i].phase, active[i].started_at))
    &&& forall|k: nat| k < count ==> #[trigger] is_open(active, events, namespace, number, k)
    &&& forall|i: int, j: int|
        0 <= i < j < active.len() ==> (#[trigger] active[i]).id != (#[trigger] active[j]).id
}

/// Whether a request holds what its events come to.
pub open spec fn agrees(
    request: ContextView,
    operation: BoundedOperationKind,
    pending: PendingView,
    events: Seq<RequestEvent>,
) -> bool {
    &&& !request.finished
    &&& request.operation == operation
    &&& request.started_at == pending.started_at
    &&& request.clock == pending.clock
    &&& request.namespace == pending.namespace
    &&& request.number == pending.number
    &&& request.next_phase_id == starts_in(events)
    &&& request.attempt_count == at_most(attempts_in(events), 0xffff_ffff)
    &&& request.phase_nanos.len() == 12
    &&& forall|phase: RequestMetricPhase|
        request.phase_nanos[#[trigger] phase.position()] == at_most(
            spent(events, pending.namespace, pending.number, phase),
            0xffff_ffff_ffff_ffff,
        )
    &&& tracks(request.active, events, pending.namespace, pending.number, starts_in(events))
}

proof fn lemma_starts(events: Seq<RequestEvent>, namespace: u64, number: u64, count: nat)
    ensures
        starts_in(events) <= events.len(),
        count >= starts_in(events) ==> running(events, namespace, number, count) is None,
    decreases events.len(),
{
    if events.len() > 0 {
        lemma_starts(events.drop_last(), namespace, number, count);
    }
}

proof fn lemma_interval(start: Moment, end: Moment)
    ensures
        crate::metrics::clock::interval_nanos(start, end) == measured(start, end),
{
    crate::metrics::clock::law_interval_is_the_difference(start, end);
}

/// Recording adds to one phase and leaves the others.
proof fn lemma_added(durations: Seq<u64>, phase: RequestMetricPhase, nanos: u64)
    requires
        durations.len() == 12,
    ensures
        crate::metrics::context::add_nanos(durations, phase, nanos).len() == 12,
        forall|other: RequestMetricPhase|
            crate::metrics::context::add_nanos(durations, phase, nanos)[
                #[trigger] other.position()
            ] == (if other == phase {
                at_most((durations[other.position()] + nanos) as nat, 0xffff_ffff_ffff_ffff)
            } else {
                durations[other.position()] as nat
            }),
{
    assert forall|other: RequestMetricPhase|
        crate::metrics::context::add_nanos(durations, phase, nanos)[#[trigger] other.position()] == (
        if other == phase {
            at_most((durations[other.position()] + nanos) as nat, 0xffff_ffff_ffff_ffff)
        } else {
            durations[other.position()] as nat
        }) by {
        crate::metrics::phase::law_phase_positions_are_distinct(other, phase);
        crate::metrics::phase::law_phase_positions_are_distinct(phase, other);
    }
    crate::metrics::phase::law_phase_positions_are_distinct(phase, phase);
}

/// After any events but an end, a request holds what they come to.
proof fn lemma_request_agrees(
    operation: BoundedOperationKind,
    pending: PendingView,
    state: StateView,
    events: Seq<RequestEvent>,
)
    requires
        events.len() < u64::MAX,
        forall|i: int| 0 <= i < events.len() ==> !(#[trigger] events[i] is Ended),
    ensures
        agrees(
            crate::metrics::laws::after_events(
                crate::metrics::context::fresh_context(operation, pending),
                state,
                events,
            ).0,
            operation,
            pending,
            events,
        ),
    decreases events.len(),
{
    let fresh = crate::metrics::context::fresh_context(operation, pending);
    if events.len() == 0 {
        assert forall|phase: RequestMetricPhase| fresh.phase_nanos[#[trigger] phase.position()]
            == 0 by {
            crate::metrics::phase::law_phase_positions_are_distinct(phase, phase);
        }
    } else {
        let shorter = events.drop_last();
        let event = events.last();
        assert(!(events[events.len() - 1] is Ended));
        lemma_request_agrees(operation, pending, state, shorter);
        let (earlier, heard) = crate::metrics::laws::after_events(fresh, state, shorter);
        let after = crate::metrics::laws::after_events(fresh, state, events).0;
        let namespace = pending.namespace;
        let number = pending.number;
        assert forall|k: nat| k >= starts_in(shorter) implies #[trigger] running(
            shorter,
            namespace,
            number,
            k,
        ) is None by {
            lemma_starts(shorter, namespace, number, k);
        }
        lemma_starts(shorter, namespace, number, 0);
        match event {
            RequestEvent::Recorded { phase, nanos } => {
                lemma_added(earlier.phase_nanos, phase, nanos);
                lemma_tracks_unchanged(earlier.active, shorter, event, namespace, number);
            },
            RequestEvent::Attempted { count } => {
                crate::metrics::counters::law_small_counters_add_up(
                    earlier.attempt_count,
                    count,
                    0,
                );
                lemma_tracks_unchanged(earlier.active, shorter, event, namespace, number);
                assert forall|phase: RequestMetricPhase|
                    spent(events, namespace, number, phase) == #[trigger] spent(
                    shorter,
                    namespace,
                    number,
                    phase,
                ) by {}
            },
            RequestEvent::Started { phase, at } => {
                lemma_tracks_started(earlier.active, shorter, phase, at, namespace, number);
                assert(events =~= shorter.push(event));
            },
            RequestEvent::Closed { id, at } => {
                lemma_agrees_closed(earlier, operation, pending, shorter, id, at);
                assert(events =~= shorter.push(event));
            },
            RequestEvent::Ended { .. } => {},
        }
        assert(events =~= shorter.push(event));
    }
}

/// An event that neither starts nor closes a phase leaves the open ones.
proof fn lemma_tracks_unchanged(
    active: Seq<ActivePhase>,
    events: Seq<RequestEvent>,
    event: RequestEvent,
    namespace: u64,
    number: u64,
)
    requires
        tracks(active, events, namespace, number, starts_in(events)),
        !(event is Started),
        !(event is Closed),
    ensures
        starts_in(events.push(event)) == starts_in(events),
        tracks(active, events.push(event), namespace, number, starts_in(events)),
{
    let longer = events.push(event);
    assert(longer.drop_last() =~= events);
    assert forall|k: nat| #[trigger] running(longer, namespace, number, k) == running(
        events,
        namespace,
        number,
        k,
    ) by {}
    lemma_tracks_same(active, events, longer, namespace, number, starts_in(events));
}

/// A phase that was started is among the open ones, under the number of those before it.
proof fn lemma_tracks_started(
    active: Seq<ActivePhase>,
    events: Seq<RequestEvent>,
    phase: RequestMetricPhase,
    at: Moment,
    namespace: u64,
    number: u64,
)
    requires
        tracks(active, events, namespace, number, starts_in(events)),
        starts_in(events) < u64::MAX,
    ensures
        ({
            let longer = events.push(RequestEvent::Started { phase, at });
            let started = ActivePhase { id: starts_in(events) as u64, phase, started_at: at };
            &&& starts_in(longer) == starts_in(events) + 1
            &&& tracks(active.push(started), longer, namespace, number, starts_in(longer))
        }),
{
    let longer = events.push(RequestEvent::Started { phase, at });
    let count = starts_in(events);
    let started = ActivePhase { id: count as u64, phase, started_at: at };
    let more = active.push(started);
    assert(longer.drop_last() =~= events);
    assert forall|k: nat| #[trigger] running(longer, namespace, number, k) == (if k == count {
        Some((phase, at))
    } else {
        running(events, namespace, number, k)
    }) by {}
    assert forall|i: int| 0 <= i < more.len() implies (#[trigger] more[i]).id < count + 1 && running(
        longer,
        namespace,
        number,
        more[i].id as nat,
    ) == Some((more[i].phase, more[i].started_at)) by {
        if i < active.len() {
            assert(more[i] == active[i]);
        }
    }
    assert forall|k: nat| k < count + 1 implies #[trigger] is_open(
        more,
        longer,
        namespace,
        number,
        k,
    ) by {
        if k == count {
            assert(more[active.len() as int].id == k);
        } else if running(longer, namespace, number, k) is Some {
            assert(running(events, namespace, number, k) is Some);
            assert(is_open(active, events, namespace, number, k));
            let i = choose|i: int| 0 <= i < active.len() && (#[trigger] active[i]).id == k;
            assert(more[i].id == k);
        }
    }
    assert forall|i: int, j: int| 0 <= i < j < more.len() implies (#[trigger] more[i]).id != (
    #[trigger] more[j]).id by {
        assert(more[i] == active[i]);
        if j < active.len() {
            assert(more[j] == active[j]);
        }
    }
}

/// A timer that is closed adds what its phase took, where it still runs, and changes nothing where
/// it does not.
proof fn lemma_agrees_closed(
    request: ContextView,
    operation: BoundedOperationKind,
    pending: PendingView,
    events: Seq<RequestEvent>,
    id: Option<PhaseId>,
    at: Moment,
)
    requires
        agrees(request, operation, pending, events),
        forall|k: nat|
            k >= starts_in(events) ==> #[trigger] running(
                events,
                pending.namespace,
                pending.number,
                k,
            ) is None,
    ensures
        agrees(
            request.phase_closed(id, at),
            operation,
            pending,
            events.push(RequestEvent::Closed { id, at }),
        ),
{
    let longer = events.push(RequestEvent::Closed { id, at });
    let namespace = pending.namespace;
    let number = pending.number;
    let closed = request.phase_closed(id, at);
    let count = starts_in(events);
    assert(longer.drop_last() =~= events);
    let own = id matches Some(own) && own.namespace == namespace && own.request == number;
    assert forall|k: nat| #[trigger] running(longer, namespace, number, k) == (if own && k
        == id.unwrap().phase {
        None
    } else {
        running(events, namespace, number, k)
    }) by {}
    if own {
        let gone = id.unwrap().phase;
        crate::metrics::laws::lemma_first_with_id(request.active, gone, 0);
        let place = crate::metrics::context::first_with_id(request.active, gone, 0);
        let last = request.active.len() - 1;
        if place < request.active.len() {
            let phase = request.active[place].phase;
            let start = request.active[place].started_at;
            assert(running(events, namespace, number, gone as nat) == Some((phase, start)));
            lemma_interval(start, at);
            lemma_added(
                request.phase_nanos,
                phase,
                crate::metrics::clock::interval_nanos(start, at),
            );
            assert forall|i: int| 0 <= i < closed.active.len() implies (
            #[trigger] closed.active[i]).id < count && running(
                longer,
                namespace,
                number,
                closed.active[i].id as nat,
            ) == Some((closed.active[i].phase, closed.active[i].started_at)) by {
                let original = if i == place {
                    last
                } else {
                    i
                };
                assert(closed.active[i] == request.active[original]);
                assert(original != place);
                if original < place {
                    assert(request.active[original].id != request.active[place].id);
                } else {
                    assert(request.active[place].id != request.active[original].id);
                }
            }
            assert forall|k: nat| k < count implies #[trigger] is_open(
                closed.active,
                longer,
                namespace,
                number,
                k,
            ) by {
                if running(longer, namespace, number, k) is Some {
                    assert(running(events, namespace, number, k) is Some);
                    assert(is_open(request.active, events, namespace, number, k));
                    let i = choose|i: int|
                        0 <= i < request.active.len() && (#[trigger] request.active[i]).id == k;
                    assert(i != place);
                    if i == last {
                        assert(closed.active[place].id == k);
                    } else {
                        assert(closed.active[i].id == k);
                    }
                }
            }
            assert forall|i: int, j: int| 0 <= i < j < closed.active.len() implies (
            #[trigger] closed.active[i]).id != (#[trigger] closed.active[j]).id by {
                let a = if i == place {
                    last
                } else {
                    i
                };
                let b = if j == place {
                    last
                } else {
                    j
                };
                assert(closed.active[i] == request.active[a]);
                assert(closed.active[j] == request.active[b]);
                if a < b {
                    assert(request.active[a].id != request.active[b].id);
                } else {
                    assert(request.active[b].id != request.active[a].id);
                }
            }
        } else {
            assert(running(events, namespace, number, gone as nat) is None) by {
                if gone < count && running(events, namespace, number, gone as nat) is Some {
                    assert(is_open(request.active, events, namespace, number, gone as nat));
                    let i = choose|i: int|
                        0 <= i < request.active.len() && (#[trigger] request.active[i]).id
                            == gone as nat;
                    assert(request.active[i].id != gone);
                }
            }
            lemma_tracks_same(request.active, events, longer, namespace, number, count);
            assert forall|phase: RequestMetricPhase| spent(longer, namespace, number, phase)
                == #[trigger] spent(events, namespace, number, phase) by {}
        }
    } else {
        lemma_tracks_same(request.active, events, longer, namespace, number, count);
        assert forall|phase: RequestMetricPhase| spent(longer, namespace, number, phase)
            == #[trigger] spent(events, namespace, number, phase) by {}
    }
}

proof fn lemma_tracks_same(
    active: Seq<ActivePhase>,
    events: Seq<RequestEvent>,
    longer: Seq<RequestEvent>,
    namespace: u64,
    number: u64,
    count: nat,
)
    requires
        tracks(active, events, namespace, number, count),
        forall|k: nat| #[trigger]
            running(longer, namespace, number, k) == running(events, namespace, number, k),
    ensures
        tracks(active, longer, namespace, number, count),
{
    assert forall|k: nat| k < count implies #[trigger] is_open(
        active,
        longer,
        namespace,
        number,
        k,
    ) by {
        assert(is_open(active, events, namespace, number, k));
        assert(running(longer, namespace, number, k) == running(events, namespace, number, k));
    }
}

/// The open phases take one of their own out without changing the time of the others.
proof fn lemma_open_nanos_without(
    active: Seq<ActivePhase>,
    out: int,
    phase: RequestMetricPhase,
    at: Moment,
)
    requires
        0 <= out < active.len(),
    ensures
        crate::metrics::laws::open_nanos(active, phase, at) == crate::metrics::laws::open_nanos(
            active.remove(out),
            phase,
            at,
        ) + (if active[out].phase == phase {
            measured(active[out].started_at, at)
        } else {
            0
        }),
    decreases active.len(),
{
    lemma_interval(active.last().started_at, at);
    if out == active.len() - 1 {
        assert(active.remove(out) =~= active.drop_last());
    } else {
        lemma_open_nanos_without(active.drop_last(), out, phase, at);
        assert(active.remove(out).drop_last() =~= active.drop_last().remove(out));
        assert(active.remove(out).last() == active.last());
    }
}

/// The time of the open phases is that of the phases that still run.
proof fn lemma_open_is_unfinished(
    active: Seq<ActivePhase>,
    events: Seq<RequestEvent>,
    namespace: u64,
    number: u64,
    phase: RequestMetricPhase,
    at: Moment,
    count: nat,
)
    requires
        tracks(active, events, namespace, number, count),
    ensures
        crate::metrics::laws::open_nanos(active, phase, at) == unfinished(
            events,
            namespace,
            number,
            phase,
            at,
            count,
        ),
    decreases count,
{
    if count == 0 {
        if active.len() > 0 {
            assert(active[0].id < count);
        }
    } else {
        let last = (count - 1) as nat;
        if running(events, namespace, number, last) is Some {
            assert(is_open(active, events, namespace, number, last));
            let out = choose|i: int| 0 <= i < active.len() && (#[trigger] active[i]).id == last;
            let rest = active.remove(out);
            lemma_open_nanos_without(active, out, phase, at);
            assert forall|i: int| 0 <= i < rest.len() implies (#[trigger] rest[i]).id < last
                && running(events, namespace, number, rest[i].id as nat) == Some(
                (rest[i].phase, rest[i].started_at),
            ) by {
                let original = if i < out {
                    i
                } else {
                    i + 1
                };
                assert(rest[i] == active[original]);
                if original < out {
                    assert(active[original].id != active[out].id);
                } else {
                    assert(active[out].id != active[original].id);
                }
            }
            assert forall|k: nat| k < last implies #[trigger] is_open(
                rest,
                events,
                namespace,
                number,
                k,
            ) by {
                if running(events, namespace, number, k) is Some {
                    assert(is_open(active, events, namespace, number, k));
                    let i = choose|i: int| 0 <= i < active.len() && (#[trigger] active[i]).id == k;
                    if i < out {
                        assert(rest[i].id == k);
                    } else {
                        assert(rest[i - 1].id == k);
                    }
                }
            }
            assert forall|i: int, j: int| 0 <= i < j < rest.len() implies (#[trigger] rest[i]).id
                != (#[trigger] rest[j]).id by {
                let a = if i < out {
                    i
                } else {
                    i + 1
                };
                let b = if j < out {
                    j
                } else {
                    j + 1
                };
                assert(rest[i] == active[a]);
                assert(rest[j] == active[b]);
            }
            lemma_open_is_unfinished(rest, events, namespace, number, phase, at, last);
            assert(running(events, namespace, number, active[out].id as nat) == Some(
                (active[out].phase, active[out].started_at),
            ));
        } else {
            assert forall|i: int| 0 <= i < active.len() implies (#[trigger] active[i]).id < last by {
                if active[i].id == last {
                    assert(running(events, namespace, number, active[i].id as nat) is Some);
                }
            }
            lemma_open_is_unfinished(active, events, namespace, number, phase, at, last);
        }
    }
}

/// The one sample of a request tells what happened to it until it ended, whatever came in whatever
/// order: the operation to which it was bound, the result of its end, all attempts, and for each phase
/// the time that was recorded for it and that its timers measured until they were first closed, or
/// until the end where they never were. The total is measured from the selection to the end. Sums that
/// do not fit stop at the largest number. Fewer than 2^64 - 1 things may have happened.
pub proof fn law_sample_tells_what_happened(
    operation: BoundedOperationKind,
    pending: PendingView,
    state: StateView,
    events: Seq<RequestEvent>,
    result: RequestMetricResult,
    at: Moment,
    phase: RequestMetricPhase,
)
    requires
        events.len() < u64::MAX,
        forall|i: int| 0 <= i < events.len() ==> !(#[trigger] events[i] is Ended),
    ensures
        ({
            let fresh = crate::metrics::context::fresh_context(operation, pending);
            let (request, after) = crate::metrics::laws::after_events(
                fresh,
                state,
                events.push(RequestEvent::Ended { result, at }),
            );
            let sample = crate::metrics::laws::after_events(fresh, state, events).0.report(
                result,
                at,
            );
            &&& request.finished
            &&& after == state.offered(sample)
            &&& sample.operation == operation
            &&& sample.result == result
            &&& sample.attempt_count == at_most(attempts_in(events), 0xffff_ffff)
            &&& sample.phase_nanos.len() == 12
            &&& sample.phase_nanos[phase.position()] == at_most(
                reported(events, pending, phase, at),
                0xffff_ffff_ffff_ffff,
            )
        }),
{
    let fresh = crate::metrics::context::fresh_context(operation, pending);
    let end = RequestEvent::Ended { result, at };
    assert(events.push(end).drop_last() =~= events);
    lemma_request_agrees(operation, pending, state, events);
    crate::metrics::laws::lemma_request_stays_open(fresh, state, events);
    let open = crate::metrics::laws::after_events(fresh, state, events).0;
    crate::metrics::laws::law_closing_adds_up(open.phase_nanos, open.active, phase, at);
    let closed = crate::metrics::context::close_all(open.phase_nanos, open.active, at);
    lemma_open_is_unfinished(
        open.active,
        events,
        pending.namespace,
        pending.number,
        phase,
        at,
        starts_in(events),
    );
    lemma_interval(pending.started_at, at);
    lemma_added(
        closed,
        RequestMetricPhase::Total,
        crate::metrics::clock::interval_nanos(pending.started_at, at),
    );
    assert(open.phase_nanos[phase.position()] == at_most(
        spent(events, pending.namespace, pending.number, phase),
        0xffff_ffff_ffff_ffff,
    ));
}

/// While a request is open, its attempts are all that were counted so far, up to the largest number,
/// and its next phase gets the number of those that were started before; what it was selected and
/// bound with stays.
pub proof fn law_open_request_counts_what_happened(
    operation: BoundedOperationKind,
    pending: PendingView,
    state: StateView,
    events: Seq<RequestEvent>,
)
    requires
        events.len() < u64::MAX,
        forall|i: int| 0 <= i < events.len() ==> !(#[trigger] events[i] is Ended),
    ensures
        ({
            let request = crate::metrics::laws::after_events(
                crate::metrics::context::fresh_context(operation, pending),
                state,
                events,
            ).0;
            &&& !request.finished
            &&& request.attempt_count == at_most(attempts_in(events), 0xffff_ffff)
            &&& request.started_id() == Some(
                PhaseId {
                    namespace: pending.namespace,
                    request: pending.number,
                    phase: starts_in(events) as u64,
                },
            )
            &&& request.operation == operation
            &&& request.started_at == pending.started_at
            &&& request.clock == pending.clock
            &&& request.namespace == pending.namespace
            &&& request.number == pending.number
        }),
{
    lemma_request_agrees(operation, pending, state, events);
}

/// Every attempt counts: a request that was tried so often, and to which nothing else happened,
/// reports exactly that number.
pub proof fn law_single_attempts_add_up(
    operation: BoundedOperationKind,
    pending: PendingView,
    state: StateView,
    tries: nat,
    result: RequestMetricResult,
    at: Moment,
)
    requires
        tries <= u32::MAX,
    ensures
        crate::metrics::laws::after_events(
            crate::metrics::context::fresh_context(operation, pending),
            state,
            Seq::new(tries, |i: int| RequestEvent::Attempted { count: 1 }),
        ).0.report(result, at).attempt_count == tries,
{
    let events = Seq::new(tries, |i: int| RequestEvent::Attempted { count: 1 });
    lemma_single_attempts(tries);
    law_sample_tells_what_happened(
        operation,
        pending,
        state,
        events,
        result,
        at,
        RequestMetricPhase::Total,
    );
}

proof fn lemma_single_attempts(tries: nat)
    ensures
        attempts_in(Seq::new(tries, |i: int| RequestEvent::Attempted { count: 1 })) == tries,
    decreases tries,
{
    let events = Seq::new(tries, |i: int| RequestEvent::Attempted { count: 1 });
    if tries > 0 {
        lemma_single_attempts((tries - 1) as nat);
        assert(events.drop_last() =~= Seq::new(
            (tries - 1) as nat,
            |i: int| RequestEvent::Attempted { count: 1 },
        ));
    }
}

/// After its end a request keeps its count and its times, and its state hears no more of it.
pub proof fn law_nothing_counts_after_the_end(
    request: ContextView,
    state: StateView,
    later: Seq<RequestEvent>,
)
    requires
        request.finished,
    ensures
        crate::metrics::laws::after_events(request, state, later) == (request, state),
    decreases later.len(),
{
    if later.len() > 0 {
        law_nothing_counts_after_the_end(request, state, later.drop_last());
    }
}

/// A closing records exactly where its timer is one of the request and its phase still runs: it was
/// started, and no closing of it came before.
pub proof fn law_closing_records_what_still_runs(
    operation: BoundedOperationKind,
    pending: PendingView,
    state: StateView,
    events: Seq<RequestEvent>,
    id: Option<PhaseId>,
)
    requires
        events.len() < u64::MAX,
        forall|i: int| 0 <= i < events.len() ==> !(#[trigger] events[i] is Ended),
    ensures
        crate::metrics::laws::after_events(
            crate::metrics::context::fresh_context(operation, pending),
            state,
            events,
        ).0.can_close(id) <==> (id matches Some(own) && own.namespace == pending.namespace
            && own.request == pending.number && running(
            events,
            pending.namespace,
            pending.number,
            own.phase as nat,
        ) is Some),
{
    let request = crate::metrics::laws::after_events(
        crate::metrics::context::fresh_context(operation, pending),
        state,
        events,
    ).0;
    lemma_request_agrees(operation, pending, state, events);
    if id is Some {
        let phase = id.unwrap().phase;
        crate::metrics::laws::lemma_first_with_id(request.active, phase, 0);
        lemma_starts(events, pending.namespace, pending.number, phase as nat);
        if phase < starts_in(events) {
            assert(is_open(
                request.active,
                events,
                pending.namespace,
                pending.number,
                phase as nat,
            ));
        }
    }
}

} // verus!
