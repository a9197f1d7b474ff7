//! What holds of sampled requests and of their buffer across calls.

use vstd::prelude::*;

use crate::metrics::clock::Moment;
use crate::metrics::context::{ActivePhase, ContextView, PendingView, PhaseId};
use crate::metrics::operation::BoundedOperationKind;
use crate::metrics::phase::{RequestMetricPhase, RequestMetricResult, REQUEST_METRIC_PHASE_COUNT};
use crate::metrics::sample::SampleView;
use crate::metrics::state::StateView;

verus! {

/// A request ends once: a second end changes neither the request nor any state, whatever result
/// it brings.
pub proof fn law_request_ends_once(
    request: ContextView,
    first: Moment,
    second: Moment,
    result: RequestMetricResult,
    state: StateView,
)
    ensures
        request.ended(first).finished,
        request.ended(first).ended(second) == request.ended(first),
        request.ended(first).reported_to(state, result, second) == state,
{
}

/// Work that comes after the end of a request changes nothing: it records no duration, counts no
/// attempt, starts no phase and closes none.
pub proof fn law_late_work_changes_nothing(
    request: ContextView,
    phase: RequestMetricPhase,
    nanos: u64,
    attempts: u32,
    id: Option<PhaseId>,
    at: Moment,
)
    requires
        request.finished,
    ensures
        request.recorded(phase, nanos) == request,
        request.with_attempts(attempts) == request,
        request.phase_started(phase, at) == request,
        request.started_id() is None,
        request.phase_closed(id, at) == request,
        !request.can_close(id),
{
}

/// Something that happens to a request.
pub enum RequestEvent {
    Recorded { phase: RequestMetricPhase, nanos: u64 },
    Attempted { count: u32 },
    Started { phase: RequestMetricPhase, at: Moment },
    /// A timer was closed, or the last clone of it went away.
    Closed { id: Option<PhaseId>, at: Moment },
    Ended { result: RequestMetricResult, at: Moment },
}

/// A request and its state after an event.
pub open spec fn after_event(
    request: ContextView,
    state: StateView,
    event: RequestEvent,
) -> (ContextView, StateView) {
    match event {
        RequestEvent::Recorded { phase, nanos } => (request.recorded(phase, nanos), state),
        RequestEvent::Attempted { count } => (request.with_attempts(count), state),
        RequestEvent::Started { phase, at } => (request.phase_started(phase, at), state),
        RequestEvent::Closed { id, at } => (request.phase_closed(id, at), state),
        RequestEvent::Ended { result, at } => (
            request.ended(at),
            request.reported_to(state, result, at),
        ),
    }
}

/// A request and its state after all these events.
pub open spec fn after_events(
    request: ContextView,
    state: StateView,
    events: Seq<RequestEvent>,
) -> (ContextView, StateView)
    decreases events.len(),
{
    if events.len() == 0 {
        (request, state)
    } else {
        let earlier = after_events(request, state, events.drop_last());
        after_event(earlier.0, earlier.1, events.last())
    }
}

/// Whatever happens to a request, in whatever order, at most one sample comes of it: none while
/// it has not ended, and one offer once it has.
pub proof fn law_request_reports_at_most_once(
    request: ContextView,
    state: StateView,
    events: Seq<RequestEvent>,
)
    requires
        !request.finished,
    ensures
        !after_events(request, state, events).0.finished ==> after_events(
            request,
            state,
            events,
        ).1 == state,
        after_events(request, state, events).0.finished ==> exists|sample: SampleView|
            after_events(request, state, events).1 == #[trigger] state.offered(sample),
    decreases events.len(),
{
    if events.len() > 0 {
        let shorter = events.drop_last();
        law_request_reports_at_most_once(request, state, shorter);
        let (earlier, earlier_state) = after_events(request, state, shorter);
        match events.last() {
            RequestEvent::Ended { result, at } => {
                if !earlier.finished {
                    assert(after_events(request, state, events).1 == state.offered(
                        earlier.report(result, at),
                    ));
                }
            },
            _ => {},
        }
    }
}

/// The first end of a request decides: its sample carries the result of that end and what was
/// recorded until then, and nothing that comes later changes the request or reaches the buffer.
pub proof fn law_first_end_decides(
    request: ContextView,
    state: StateView,
    before: Seq<RequestEvent>,
    result: RequestMetricResult,
    at: Moment,
    later: Seq<RequestEvent>,
)
    requires
        !request.finished,
        forall|i: int| 0 <= i < before.len() ==> !(#[trigger] before[i] is Ended),
    ensures
        ({
            let open = after_events(request, state, before).0;
            let events = before.push(RequestEvent::Ended { result, at }) + later;
            after_events(request, state, events) == (
                open.ended(at),
                state.offered(open.report(result, at)),
            )
        }),
    decreases later.len(),
{
    let end = RequestEvent::Ended { result, at };
    let events = before.push(end) + later;
    if later.len() == 0 {
        lemma_request_stays_open(request, state, before);
        assert(events =~= before.push(end));
        assert(events.drop_last() =~= before);
    } else {
        law_first_end_decides(request, state, before, result, at, later.drop_last());
        assert(events.drop_last() =~= before.push(end) + later.drop_last());
        assert(events.last() == later.last());
    }
}

/// A request that nothing ended is open, and its state has heard nothing of it.
pub proof fn lemma_request_stays_open(request: ContextView, state: StateView, events: Seq<RequestEvent>)
    requires
        !request.finished,
        forall|i: int| 0 <= i < events.len() ==> !(#[trigger] events[i] is Ended),
    ensures
        !after_events(request, state, events).0.finished,
        after_events(request, state, events).1 == state,
    decreases events.len(),
{
    if events.len() > 0 {
        lemma_request_stays_open(request, state, events.drop_last());
        assert(!(events[events.len() - 1] is Ended));
    }
}

/// The search for an id finds the first place that has it.
pub proof fn lemma_first_with_id(active: Seq<ActivePhase>, id: u64, start: int)
    requires
        0 <= start <= active.len(),
    ensures
        start <= crate::metrics::context::first_with_id(active, id, start) <= active.len(),
        forall|i: int|
            start <= i < crate::metrics::context::first_with_id(active, id, start) ==> (
            #[trigger] active[i]).id != id,
        crate::metrics::context::first_with_id(active, id, start) < active.len()
            ==> active[crate::metrics::context::first_with_id(active, id, start)].id == id,
    decreases active.len() - start,
{
    if start < active.len() && active[start].id != id {
        lemma_first_with_id(active, id, start + 1);
    }
}

/// A timer closes phases of its own request only: on any other it changes nothing.
pub proof fn law_timer_keeps_to_its_request(
    request: ContextView,
    timer: Option<PhaseId>,
    at: Moment,
)
    requires
        !request.started(timer),
    ensures
        !request.can_close(timer),
        request.phase_closed(timer, at) == request,
{
}

/// Requests of one state have different numbers, as long as fewer than 2^64 were selected, so that
/// no timer of the one was started on the other.
pub proof fn law_requests_are_told_apart(
    state: StateView,
    earlier: nat,
    later: nat,
    first: tokio::time::Instant,
    second: tokio::time::Instant,
)
    requires
        earlier < later,
        later - earlier <= u64::MAX,
    ensures
        state.after_selections(earlier).selected_at(first).number != state.after_selections(
            later,
        ).selected_at(second).number,
        state.after_selections(earlier).selected_at(first).namespace == state.namespace,
        state.after_selections(later).selected_at(second).namespace == state.namespace,
{
    lemma_selections(state, earlier);
    lemma_selections(state, later);
    crate::serial::law_numbers_are_distinct(state.next_request, earlier, later);
}

proof fn lemma_selections(state: StateView, count: nat)
    ensures
        state.after_selections(count) == (StateView {
            next_request: crate::serial::nth_following(state.next_request, count),
            ..state
        }),
    decreases count,
{
    if count > 0 {
        lemma_selections(state, (count - 1) as nat);
    }
}

/// Whatever happens to a request, it keeps its state and its number, so that its timers stay its
/// own.
pub proof fn law_timers_stay_with_their_request(
    request: ContextView,
    state: StateView,
    events: Seq<RequestEvent>,
    timer: Option<PhaseId>,
)
    ensures
        after_events(request, state, events).0.started(timer) == request.started(timer),
    decreases events.len(),
{
    if events.len() > 0 {
        law_timers_stay_with_their_request(request, state, events.drop_last(), timer);
    }
}

/// The clones of a timer record their phase once: when one of them has closed it, no other can.
pub proof fn law_timer_records_once(
    request: ContextView,
    id: PhaseId,
    first: Moment,
    second: Moment,
)
    requires
        request.ids_are_distinct(),
        request.can_close(Some(id)),
    ensures
        !request.phase_closed(Some(id), first).can_close(Some(id)),
        request.phase_closed(Some(id), first).phase_closed(Some(id), second)
            == request.phase_closed(Some(id), first),
{
    let active = request.active;
    let place = crate::metrics::context::first_with_id(active, id.phase, 0);
    lemma_first_with_id(active, id.phase, 0);
    let closed = request.phase_closed(Some(id), first);
    lemma_first_with_id(closed.active, id.phase, 0);
    let again = crate::metrics::context::first_with_id(closed.active, id.phase, 0);
    if again < closed.active.len() {
        assert(closed.active[again].id == id.phase);
        let original = if again == place {
            active.len() - 1
        } else {
            again
        };
        assert(closed.active[again] == active[original]);
        assert(original != place);
    }
}

/// A timer closes the phase that its start opened: the interval between the two is added to that
/// phase, and the other open phases stay open.
pub proof fn law_timer_measures_its_phase(
    request: ContextView,
    phase: RequestMetricPhase,
    start: Moment,
    end: Moment,
)
    requires
        !request.finished,
        request.ids_are_distinct(),
    ensures
        request.phase_started(phase, start).can_close(request.started_id()),
        request.phase_started(phase, start).phase_closed(request.started_id(), end).phase_nanos
            == crate::metrics::context::add_nanos(
            request.phase_nanos,
            phase,
            crate::metrics::clock::interval_nanos(start, end),
        ),
        request.phase_started(phase, start).phase_closed(request.started_id(), end).active
            == request.active,
{
    let started = request.phase_started(phase, start);
    let id = request.next_phase_id;
    lemma_first_with_id(started.active, id, 0);
    let place = crate::metrics::context::first_with_id(started.active, id, 0);
    let last = started.active.len() - 1;
    assert(started.active[last].id == id);
    if place < last {
        assert(started.active[place] == request.active[place]);
    }
    assert(place == last);
    assert(started.active.update(last, started.active.last()).drop_last() =~= request.active);
}

/// The ids of open phases stay distinct, as long as fewer than 2^64 phases were started.
pub proof fn law_ids_stay_distinct(
    request: ContextView,
    phase: RequestMetricPhase,
    nanos: u64,
    attempts: u32,
    id: Option<PhaseId>,
    at: Moment,
)
    requires
        request.ids_are_distinct(),
        request.next_phase_id < u64::MAX,
    ensures
        request.phase_started(phase, at).ids_are_distinct(),
        request.phase_closed(id, at).ids_are_distinct(),
        request.recorded(phase, nanos).ids_are_distinct(),
        request.with_attempts(attempts).ids_are_distinct(),
        request.ended(at).ids_are_distinct(),
{
    lemma_ids_distinct_when_closed(request, id, at);
}

/// Closing a phase keeps the ids of the others distinct.
proof fn lemma_ids_distinct_when_closed(request: ContextView, id: Option<PhaseId>, at: Moment)
    requires
        request.ids_are_distinct(),
    ensures
        request.phase_closed(id, at).ids_are_distinct(),
{
    let closed = request.phase_closed(id, at);
    if request.can_close(id) {
        let place = crate::metrics::context::first_with_id(request.active, id.unwrap().phase, 0);
        lemma_first_with_id(request.active, id.unwrap().phase, 0);
        let last = request.active.len() - 1;
        assert forall|i: int| 0 <= i < closed.active.len() implies (#[trigger] closed.active[i]).id
            < closed.next_phase_id by {
            assert(closed.active[i] == request.active[if i == place { last } else { i }]);
        }
        assert forall|i: int, j: int| 0 <= i < j < closed.active.len() implies (
        #[trigger] closed.active[i]).id != (#[trigger] closed.active[j]).id by {
            let a = if i == place { last } else { i };
            let b = if j == place { last } else { j };
            assert(closed.active[i] == request.active[a]);
            assert(closed.active[j] == request.active[b]);
            if a < b {
                assert(request.active[a].id != request.active[b].id);
            } else {
                assert(request.active[b].id != request.active[a].id);
            }
        }
    }
}

/// A new request has no open phase, so its ids are distinct.
pub proof fn law_new_request_has_distinct_ids(
    operation: BoundedOperationKind,
    pending: PendingView,
)
    ensures
        crate::metrics::context::fresh_context(operation, pending).ids_are_distinct(),
        !crate::metrics::context::fresh_context(operation, pending).finished,
{
}

/// The nanoseconds that open phases of one kind have lasted until a moment.
pub open spec fn open_nanos(
    active: Seq<ActivePhase>,
    phase: RequestMetricPhase,
    at: Moment,
) -> nat
    decreases active.len(),
{
    if active.len() == 0 {
        0
    } else {
        open_nanos(active.drop_last(), phase, at) + (if active.last().phase == phase {
            crate::metrics::clock::interval_nanos(active.last().started_at, at) as nat
        } else {
            0nat
        })
    }
}

/// Closing the open phases adds up their lengths, phase by phase, up to the largest number; the
/// order in which they are closed does not matter.
pub proof fn law_closing_adds_up(
    durations: Seq<u64>,
    active: Seq<ActivePhase>,
    phase: RequestMetricPhase,
    at: Moment,
)
    requires
        durations.len() == REQUEST_METRIC_PHASE_COUNT,
    ensures
        crate::metrics::context::close_all(durations, active, at).len()
            == REQUEST_METRIC_PHASE_COUNT,
        crate::metrics::context::close_all(durations, active, at)[phase.position()] == (if durations[phase.position()]
            + open_nanos(active, phase, at) > u64::MAX {
            u64::MAX as int
        } else {
            durations[phase.position()] + open_nanos(active, phase, at)
        }),
    decreases active.len(),
{
    if active.len() > 0 {
        law_closing_adds_up(durations, active.drop_last(), phase, at);
        crate::metrics::phase::law_phase_positions_are_distinct(phase, active.last().phase);
        crate::metrics::phase::law_phase_positions_are_distinct(active.last().phase, phase);
    }
}

/// A report is consistent: it has a total of at least 1, no phase that was still open reads as not
/// reached, and nothing that was recorded before is lost.
pub proof fn law_report_is_consistent(
    request: ContextView,
    result: RequestMetricResult,
    at: Moment,
    open: int,
    phase: RequestMetricPhase,
)
    requires
        request.phase_nanos.len() == REQUEST_METRIC_PHASE_COUNT,
        0 <= open < request.active.len(),
    ensures
        request.report(result, at).phase_nanos.len() == REQUEST_METRIC_PHASE_COUNT,
        request.report(result, at).phase_nanos[RequestMetricPhase::Total.position()] >= 1,
        request.report(result, at).phase_nanos[request.active[open].phase.position()] >= 1,
        request.report(result, at).phase_nanos[phase.position()]
            >= request.phase_nanos[phase.position()],
{
    law_report_has_a_total(request, result, at, phase);
    let opened = request.active[open].phase;
    law_closing_adds_up(request.phase_nanos, request.active, opened, at);
    lemma_open_phase_counts(request.active, open, at);
    crate::metrics::phase::law_phase_positions_are_distinct(opened, RequestMetricPhase::Total);
}

/// Every report has a total of at least 1, and nothing that was recorded before is lost.
pub proof fn law_report_has_a_total(
    request: ContextView,
    result: RequestMetricResult,
    at: Moment,
    phase: RequestMetricPhase,
)
    requires
        request.phase_nanos.len() == REQUEST_METRIC_PHASE_COUNT,
    ensures
        request.report(result, at).phase_nanos.len() == REQUEST_METRIC_PHASE_COUNT,
        request.report(result, at).phase_nanos[RequestMetricPhase::Total.position()] >= 1,
        request.report(result, at).phase_nanos[phase.position()]
            >= request.phase_nanos[phase.position()],
{
    law_closing_adds_up(request.phase_nanos, request.active, RequestMetricPhase::Total, at);
    law_closing_adds_up(request.phase_nanos, request.active, phase, at);
    crate::metrics::phase::law_phase_positions_are_distinct(phase, RequestMetricPhase::Total);
}

proof fn lemma_open_phase_counts(active: Seq<ActivePhase>, open: int, at: Moment)
    requires
        0 <= open < active.len(),
    ensures
        open_nanos(active, active[open].phase, at) >= 1,
    decreases active.len(),
{
    if open < active.len() - 1 {
        lemma_open_phase_counts(active.drop_last(), open, at);
    }
}

/// Whether an event brings a phase to a request.
pub open spec fn reaches(event: RequestEvent, phase: RequestMetricPhase) -> bool {
    match event {
        RequestEvent::Recorded { phase: recorded, .. } => recorded == phase,
        RequestEvent::Started { phase: started, .. } => started == phase,
        _ => false,
    }
}

/// Only phases that a request reached are in its report: any other, but for the total, reads as
/// absent.
pub proof fn law_unreached_phase_is_absent(
    operation: BoundedOperationKind,
    pending: PendingView,
    state: StateView,
    events: Seq<RequestEvent>,
    phase: RequestMetricPhase,
    result: RequestMetricResult,
    at: Moment,
)
    requires
        phase != RequestMetricPhase::Total,
        forall|i: int| 0 <= i < events.len() ==> !reaches(#[trigger] events[i], phase),
    ensures
        after_events(
            crate::metrics::context::fresh_context(operation, pending),
            state,
            events,
        ).0.report(result, at).phase_nanos[phase.position()] == 0,
{
    let fresh = crate::metrics::context::fresh_context(operation, pending);
    lemma_phase_stays_absent(fresh, state, events, phase);
    let open = after_events(fresh, state, events).0;
    law_closing_adds_up(open.phase_nanos, open.active, phase, at);
    lemma_no_open_nanos(open.active, phase, at);
    crate::metrics::phase::law_phase_positions_are_distinct(phase, RequestMetricPhase::Total);
}

/// Whether a request has neither recorded a phase nor got it open.
pub open spec fn phase_is_absent(request: ContextView, phase: RequestMetricPhase) -> bool {
    &&& request.phase_nanos.len() == REQUEST_METRIC_PHASE_COUNT
    &&& request.phase_nanos[phase.position()] == 0
    &&& forall|i: int| 0 <= i < request.active.len() ==> (#[trigger] request.active[i]).phase != phase
}

proof fn lemma_no_open_nanos(active: Seq<ActivePhase>, phase: RequestMetricPhase, at: Moment)
    requires
        forall|i: int| 0 <= i < active.len() ==> (#[trigger] active[i]).phase != phase,
    ensures
        open_nanos(active, phase, at) == 0,
    decreases active.len(),
{
    if active.len() > 0 {
        assert(active[active.len() - 1].phase != phase);
        lemma_no_open_nanos(active.drop_last(), phase, at);
    }
}

proof fn lemma_phase_stays_absent(
    request: ContextView,
    state: StateView,
    events: Seq<RequestEvent>,
    phase: RequestMetricPhase,
)
    requires
        phase != RequestMetricPhase::Total,
        phase_is_absent(request, phase),
        forall|i: int| 0 <= i < events.len() ==> !reaches(#[trigger] events[i], phase),
    ensures
        phase_is_absent(after_events(request, state, events).0, phase),
    decreases events.len(),
{
    if events.len() > 0 {
        lemma_phase_stays_absent(request, state, events.drop_last(), phase);
        let earlier = after_events(request, state, events.drop_last()).0;
        assert(!reaches(events[events.len() - 1], phase));
        match events.last() {
            RequestEvent::Recorded { phase: recorded, .. } => {
                crate::metrics::phase::law_phase_positions_are_distinct(phase, recorded);
            },
            RequestEvent::Closed { id, .. } => {
                if earlier.can_close(id) {
                    let place = crate::metrics::context::first_with_id(
                        earlier.active,
                        id.unwrap().phase,
                        0,
                    );
                    lemma_first_with_id(earlier.active, id.unwrap().phase, 0);
                    crate::metrics::phase::law_phase_positions_are_distinct(
                        phase,
                        earlier.active[place].phase,
                    );
                    assert(earlier.active[earlier.active.len() - 1].phase != phase);
                }
            },
            RequestEvent::Ended { at, .. } => {
                law_closing_adds_up(earlier.phase_nanos, earlier.active, phase, at);
                lemma_no_open_nanos(earlier.active, phase, at);
                crate::metrics::phase::law_phase_positions_are_distinct(
                    phase,
                    RequestMetricPhase::Total,
                );
            },
            _ => {},
        }
    }
}

/// An offered sample is buffered or counted as dropped, never both; the buffer stays within its
/// capacity, and what was buffered before keeps its place.
pub proof fn law_offered_sample_is_buffered_or_dropped(state: StateView, sample: SampleView)
    requires
        state.valid(),
        state.dropped_samples < u64::MAX,
    ensures
        state.offered(sample).valid(),
        state.offered(sample).buffered.len() + state.offered(sample).dropped_samples
            == state.buffered.len() + state.dropped_samples + 1,
        state.offered(sample).buffered.take(state.buffered.len() as int) == state.buffered,
        state.offered(sample).dropped_samples == state.dropped_samples <==> state.buffered.len()
            < state.capacity,
{
    assert(state.offered(sample).buffered.take(state.buffered.len() as int) =~= state.buffered);
}

/// A drain loses nothing, invents nothing and keeps the order: the drained samples and those that
/// are left are the buffered ones.
pub proof fn law_drain_keeps_every_sample(state: StateView, max_samples: usize)
    requires
        state.valid(),
    ensures
        state.drain_report(max_samples).samples + state.drained(max_samples).buffered
            == state.buffered,
        state.drain_report(max_samples).samples.len() <= max_samples,
        state.drain_report(max_samples).remaining_samples == state.drained(
            max_samples,
        ).buffered.len(),
        state.drain_report(max_samples).has_more <==> state.drained(max_samples).buffered.len()
            > 0,
        state.drained(max_samples).valid(),
{
    assert(state.drain_report(max_samples).samples + state.drained(max_samples).buffered
        =~= state.buffered);
}

/// Two drains take what one drain of both limits takes.
pub proof fn law_drains_add_up(state: StateView, first: usize, second: usize)
    requires
        first + second <= usize::MAX,
    ensures
        state.drain_report(first).samples + state.drained(first).drain_report(second).samples
            == state.drain_report((first + second) as usize).samples,
        state.drained(first).drained(second) == state.drained((first + second) as usize),
{
    assert(state.drain_report(first).samples + state.drained(first).drain_report(second).samples
        =~= state.drain_report((first + second) as usize).samples);
    assert(state.drained(first).drained(second) =~= state.drained((first + second) as usize));
}

/// A drop is reported by one drain: the next drain starts counting anew.
pub proof fn law_drops_are_reported_once(state: StateView, first: usize, second: usize)
    ensures
        state.drain_report(first).dropped_samples == state.dropped_samples,
        state.drained(first).drain_report(second).dropped_samples == 0,
{
}

/// The label of a custom command is its upper case where that is listed, and the fallback where
/// it is not: never another text that a caller sent.
pub proof fn law_custom_label(state: StateView, operation: Seq<u8>)
    requires
        state.valid(),
    ensures
        custom_label(state, state, operation) == (if state.allowed.contains(
            crate::metrics::byte_order::upper_bytes(operation),
        ) {
            crate::metrics::byte_order::upper_bytes(operation)
        } else {
            vstd::utf8::encode_utf8(crate::metrics::operation::CUSTOM_COMMAND@)
        }),
        state.allowed.contains(crate::metrics::byte_order::upper_bytes(operation))
            ==> crate::metrics::allow_list::valid_custom_command(
            custom_label(state, state, operation),
        ),
{
    let name = crate::metrics::byte_order::upper_bytes(operation);
    if state.allowed.contains(name) {
        let slot = state.allowed.index_of(name);
        assert(0 <= slot < state.allowed.len() && state.allowed[slot] == name);
        assert(slot < 64);
        assert((slot as u8) as int == slot);
    }
}

/// The label that `reader` gives to the identity that `owner` made of a custom command.
pub open spec fn custom_label(owner: StateView, reader: StateView, operation: Seq<u8>) -> Seq<u8> {
    crate::metrics::operation::operation_label(
        crate::metrics::state::custom_identity(owner.allowed, owner.namespace, operation),
        reader.allowed,
        reader.namespace,
    )
}

/// Of the states that draw their namespaces on one source, none shows one of its own names for an
/// identity that another made. The source gives out 2^64 namespaces before one comes again.
pub proof fn law_identity_is_not_relabelled(
    owner: StateView,
    other: StateView,
    operation: Seq<u8>,
    first: u64,
    earlier: nat,
    later: nat,
)
    requires
        earlier < later,
        later - earlier <= u64::MAX,
        ({
            ||| owner.namespace == crate::serial::nth_following(first, earlier) && other.namespace
                == crate::serial::nth_following(first, later)
            ||| owner.namespace == crate::serial::nth_following(first, later) && other.namespace
                == crate::serial::nth_following(first, earlier)
        }),
    ensures
        custom_label(owner, other, operation) == vstd::utf8::encode_utf8(
            crate::metrics::operation::CUSTOM_COMMAND@,
        ),
{
    crate::serial::law_numbers_are_distinct(first, earlier, later);
}

/// The ASCII case in which a custom command was sent does not matter, and nothing else is passed
/// over: listed commands with one identity differ only in case.
pub proof fn law_lookup_ignores_case(state: StateView, first: Seq<u8>, second: Seq<u8>)
    requires
        state.valid(),
    ensures
        crate::metrics::byte_order::upper_bytes(first) == crate::metrics::byte_order::upper_bytes(
            second,
        ) ==> crate::metrics::state::custom_identity(state.allowed, state.namespace, first)
            == crate::metrics::state::custom_identity(state.allowed, state.namespace, second),
        state.allowed.contains(crate::metrics::byte_order::upper_bytes(first))
            && crate::metrics::state::custom_identity(state.allowed, state.namespace, first)
            == crate::metrics::state::custom_identity(state.allowed, state.namespace, second)
            ==> crate::metrics::byte_order::upper_bytes(first)
            == crate::metrics::byte_order::upper_bytes(second),
        crate::metrics::state::custom_identity(
            state.allowed,
            state.namespace,
            crate::metrics::byte_order::upper_bytes(first),
        ) == crate::metrics::state::custom_identity(state.allowed, state.namespace, first),
{
    let name = crate::metrics::byte_order::upper_bytes(first);
    let other = crate::metrics::byte_order::upper_bytes(second);
    if state.allowed.contains(name) && state.allowed.contains(other) {
        let slot = state.allowed.index_of(name);
        let second_slot = state.allowed.index_of(other);
        assert(0 <= slot < state.allowed.len() && state.allowed[slot] == name);
        assert(0 <= second_slot < state.allowed.len() && state.allowed[second_slot] == other);
        assert((slot as u8) as int == slot);
        assert((second_slot as u8) as int == second_slot);
    }
    assert(crate::metrics::byte_order::upper_bytes(crate::metrics::byte_order::upper_bytes(first))
        =~= crate::metrics::byte_order::upper_bytes(first));
}

/// Something that happens to the buffer of a state.
pub enum BufferEvent {
    /// A request ended and offered its sample.
    Offered { sample: SampleView },
    Drained { max_samples: usize },
}

/// What came of a buffer after a history.
pub struct BufferHistory {
    pub state: StateView,
    /// The samples that found room, in the order in which they came.
    pub accepted: Seq<SampleView>,
    /// The samples that were drained, in the order in which they left.
    pub drained: Seq<SampleView>,
    /// The drops that drains reported, added up.
    pub reported_drops: nat,
    /// How many samples were offered.
    pub offered: nat,
}

/// What came of a buffer after these events.
pub open spec fn buffer_history(state: StateView, events: Seq<BufferEvent>) -> BufferHistory
    decreases events.len(),
{
    if events.len() == 0 {
        BufferHistory {
            state,
            accepted: Seq::empty(),
            drained: Seq::empty(),
            reported_drops: 0,
            offered: 0,
        }
    } else {
        let before = buffer_history(state, events.drop_last());
        match events.last() {
            BufferEvent::Offered { sample } => BufferHistory {
                state: before.state.offered(sample),
                accepted: if before.state.buffered.len() < before.state.capacity {
                    before.accepted.push(sample)
                } else {
                    before.accepted
                },
                offered: before.offered + 1,
                ..before
            },
            BufferEvent::Drained { max_samples } => BufferHistory {
                state: before.state.drained(max_samples),
                drained: before.drained + before.state.drain_report(max_samples).samples,
                reported_drops: before.reported_drops + before.state.drain_report(
                    max_samples,
                ).dropped_samples as nat,
                ..before
            },
        }
    }
}

/// No sample is lost, doubled or put out of order over any history: those that were drained and
/// those that wait are those that found room, after those that waited at first. Every offered
/// sample found room or is a drop that was reported or waits to be.
pub proof fn law_samples_are_conserved(state: StateView, events: Seq<BufferEvent>)
    requires
        state.valid(),
        state.dropped_samples + events.len() <= u64::MAX,
    ensures
        ({
            let after = buffer_history(state, events);
            &&& after.state.valid()
            &&& after.drained + after.state.buffered == state.buffered + after.accepted
            &&& after.accepted.len() + after.reported_drops + after.state.dropped_samples
                == after.offered + state.dropped_samples
            &&& after.offered <= events.len()
        }),
    decreases events.len(),
{
    let after = buffer_history(state, events);
    if events.len() == 0 {
        assert(after.drained + after.state.buffered =~= state.buffered + after.accepted);
    } else {
        law_samples_are_conserved(state, events.drop_last());
        let before = buffer_history(state, events.drop_last());
        match events.last() {
            BufferEvent::Offered { sample } => {
                if before.state.buffered.len() < before.state.capacity {
                    assert(after.drained + after.state.buffered =~= (before.drained
                        + before.state.buffered).push(sample));
                    assert(state.buffered + after.accepted =~= (state.buffered
                        + before.accepted).push(sample));
                }
            },
            BufferEvent::Drained { max_samples } => {
                assert(after.drained + after.state.buffered =~= before.drained
                    + before.state.buffered);
            },
        }
    }
}

/// Whether an event closes the phase with this id, or ends its request.
pub open spec fn closes(event: RequestEvent, id: PhaseId) -> bool {
    match event {
        RequestEvent::Closed { id: closed, .. } => closed == Some(id),
        RequestEvent::Ended { .. } => true,
        _ => false,
    }
}

/// Whether a phase is open under this id, and the ids leave room for so many more phases.
pub open spec fn holds_open(request: ContextView, open: ActivePhase, room: nat) -> bool {
    &&& !request.finished
    &&& request.ids_are_distinct()
    &&& request.next_phase_id + room <= u64::MAX
    &&& exists|i: int| 0 <= i < request.active.len() && #[trigger] request.active[i] == open
}

proof fn lemma_phase_stays_open(
    request: ContextView,
    state: StateView,
    events: Seq<RequestEvent>,
    open: ActivePhase,
)
    requires
        holds_open(request, open, events.len()),
        forall|i: int| 0 <= i < events.len() ==> !closes(#[trigger] events[i], request.phase_id(open.id)),
    ensures
        holds_open(after_events(request, state, events).0, open, 0),
        after_events(request, state, events).0.namespace == request.namespace,
        after_events(request, state, events).0.number == request.number,
        after_events(request, state, events).0.next_phase_id <= request.next_phase_id
            + events.len(),
    decreases events.len(),
{
    if events.len() > 0 {
        let shorter = events.drop_last();
        lemma_phase_stays_open(request, state, shorter, open);
        let earlier = after_events(request, state, shorter).0;
        let event = events.last();
        assert(!closes(events[events.len() - 1], request.phase_id(open.id)));
        let place = choose|i: int| 0 <= i < earlier.active.len() && #[trigger] earlier.active[i] == open;
        match event {
            RequestEvent::Started { phase, at } => {
                law_ids_stay_distinct(earlier, phase, 0, 0, None, at);
                assert(earlier.phase_started(phase, at).active[place] == open);
            },
            RequestEvent::Closed { id, at } => {
                lemma_ids_distinct_when_closed(earlier, id, at);
                if earlier.can_close(id) {
                    let closed = earlier.phase_closed(id, at);
                    let gone = crate::metrics::context::first_with_id(
                        earlier.active,
                        id.unwrap().phase,
                        0,
                    );
                    lemma_first_with_id(earlier.active, id.unwrap().phase, 0);
                    assert(gone != place);
                    if place == earlier.active.len() - 1 {
                        assert(closed.active[gone] == open);
                    } else {
                        assert(closed.active[place] == open);
                    }
                }
            },
            _ => {
                assert(after_event(earlier, state, event).0.active[place] == open);
            },
        }
    }
}

/// The first closing of a timer records: as long as its request has not ended, whatever else
/// happens first, it adds the interval since the start to the phase of the timer and nothing else.
pub proof fn law_first_closing_records(
    request: ContextView,
    state: StateView,
    phase: RequestMetricPhase,
    start: Moment,
    before: Seq<RequestEvent>,
    at: Moment,
)
    requires
        !request.finished,
        request.ids_are_distinct(),
        request.next_phase_id + before.len() < u64::MAX,
        forall|i: int|
            0 <= i < before.len() ==> !closes(
                #[trigger] before[i],
                request.phase_id(request.next_phase_id),
            ),
    ensures
        ({
            let open = after_events(request.phase_started(phase, start), state, before).0;
            &&& open.can_close(request.started_id())
            &&& open.phase_closed(request.started_id(), at).phase_nanos
                == crate::metrics::context::add_nanos(
                open.phase_nanos,
                phase,
                crate::metrics::clock::interval_nanos(start, at),
            )
        }),
{
    let id = request.next_phase_id;
    let started = request.phase_started(phase, start);
    let timed = ActivePhase { id, phase, started_at: start };
    law_ids_stay_distinct(request, phase, 0, 0, None, start);
    assert(started.active[started.active.len() - 1] == timed);
    lemma_phase_stays_open(started, state, before, timed);
    let open = after_events(started, state, before).0;
    let place = choose|i: int| 0 <= i < open.active.len() && #[trigger] open.active[i] == timed;
    lemma_first_with_id(open.active, id, 0);
    let found = crate::metrics::context::first_with_id(open.active, id, 0);
    assert(found <= place);
    assert(open.active[found].id == id);
    assert(found == place);
}

/// Whether no phase is open under this id, and none can come to be for so many more phases.
pub open spec fn is_closed(request: ContextView, id: u64, room: nat) -> bool {
    &&& id < request.next_phase_id
    &&& request.next_phase_id + room <= u64::MAX
    &&& forall|i: int| 0 <= i < request.active.len() ==> (#[trigger] request.active[i]).id != id
}

/// After a timer was closed, or its request ended, no later closing of it or of a clone records,
/// whatever happens in between.
pub proof fn law_later_closings_record_nothing(
    request: ContextView,
    state: StateView,
    id: PhaseId,
    later: Seq<RequestEvent>,
)
    requires
        request.finished || is_closed(request, id.phase, later.len()),
    ensures
        !after_events(request, state, later).0.can_close(Some(id)),
        after_events(request, state, later).0.finished || is_closed(
            after_events(request, state, later).0,
            id.phase,
            0,
        ),
        request.finished ==> after_events(request, state, later).0.finished,
        !request.finished ==> after_events(request, state, later).0.next_phase_id
            <= request.next_phase_id + later.len(),
    decreases later.len(),
{
    let after = after_events(request, state, later).0;
    if later.len() > 0 {
        let shorter = later.drop_last();
        law_later_closings_record_nothing(request, state, id, shorter);
        let earlier = after_events(request, state, shorter).0;
        match later.last() {
            RequestEvent::Closed { id: closed, at } => {
                if earlier.can_close(closed) {
                    let gone = crate::metrics::context::first_with_id(
                        earlier.active,
                        closed.unwrap().phase,
                        0,
                    );
                    lemma_first_with_id(earlier.active, closed.unwrap().phase, 0);
                    assert forall|i: int| 0 <= i < after.active.len() implies (
                    #[trigger] after.active[i]).id != id.phase by {
                        let original = if i == gone {
                            earlier.active.len() - 1
                        } else {
                            i
                        };
                        assert(after.active[i] == earlier.active[original]);
                    }
                }
            },
            RequestEvent::Started { .. } => {
                assert forall|i: int| 0 <= i < after.active.len() && !earlier.finished implies (
                #[trigger] after.active[i]).id != id.phase by {
                    if i < earlier.active.len() {
                        assert(after.active[i] == earlier.active[i]);
                    }
                }
            },
            _ => {},
        }
    }
    lemma_first_with_id(after.active, id.phase, 0);
}

/// A closing leaves its timer closed, so that `law_later_closings_record_nothing` holds from then
/// on.
pub proof fn law_closing_closes(request: ContextView, id: PhaseId, at: Moment, room: nat)
    requires
        request.ids_are_distinct(),
        request.can_close(Some(id)),
        request.next_phase_id + room <= u64::MAX,
    ensures
        is_closed(request.phase_closed(Some(id), at), id.phase, room),
{
    let active = request.active;
    let closed = request.phase_closed(Some(id), at);
    let place = crate::metrics::context::first_with_id(active, id.phase, 0);
    lemma_first_with_id(active, id.phase, 0);
    assert forall|i: int| 0 <= i < closed.active.len() implies (#[trigger] closed.active[i]).id
        != id.phase by {
        let original = if i == place {
            active.len() - 1
        } else {
            i
        };
        assert(closed.active[i] == active[original]);
        assert(active[original].id != active[place].id);
    }
}

/// How many of these events are closings of a timer that record its phase.
pub open spec fn recordings(
    request: ContextView,
    state: StateView,
    events: Seq<RequestEvent>,
    id: PhaseId,
) -> nat
    decreases events.len(),
{
    if events.len() == 0 {
        0
    } else {
        let earlier = after_events(request, state, events.drop_last()).0;
        recordings(request, state, events.drop_last(), id) + (if events.last() matches
            RequestEvent::Closed { id: closed, .. } && closed == Some(id) && earlier.can_close(
            Some(id),
        ) {
            1nat
        } else {
            0nat
        })
    }
}

/// Of all closings of a timer and its clones, the drop of the last clone among them, at most one
/// records, whatever else happens to the request in between.
pub proof fn law_one_closing_records(
    request: ContextView,
    state: StateView,
    events: Seq<RequestEvent>,
    id: PhaseId,
)
    requires
        request.ids_are_distinct(),
        id.phase < request.next_phase_id,
        request.next_phase_id + events.len() <= u64::MAX,
    ensures
        recordings(request, state, events, id) <= 1,
{
    lemma_one_closing_records(request, state, events, id);
}

proof fn lemma_one_closing_records(
    request: ContextView,
    state: StateView,
    events: Seq<RequestEvent>,
    id: PhaseId,
)
    requires
        request.ids_are_distinct(),
        id.phase < request.next_phase_id,
        request.next_phase_id + events.len() <= u64::MAX,
    ensures
        ({
            let after = after_events(request, state, events).0;
            &&& after.ids_are_distinct()
            &&& request.next_phase_id <= after.next_phase_id <= request.next_phase_id
                + events.len()
            &&& recordings(request, state, events, id) <= 1
            &&& recordings(request, state, events, id) == 1 ==> after.finished || is_closed(
                after,
                id.phase,
                0,
            )
        }),
    decreases events.len(),
{
    if events.len() > 0 {
        let shorter = events.drop_last();
        lemma_one_closing_records(request, state, shorter, id);
        let (earlier, earlier_state) = after_events(request, state, shorter);
        match events.last() {
            RequestEvent::Recorded { phase, nanos } => {
                law_ids_stay_distinct(earlier, phase, nanos, 0, None, Moment { nanos: 0 });
            },
            RequestEvent::Attempted { count } => {},
            RequestEvent::Started { phase, at } => {
                law_ids_stay_distinct(earlier, phase, 0, 0, None, at);
            },
            RequestEvent::Closed { id: closed, at } => {
                lemma_ids_distinct_when_closed(earlier, closed, at);
                if earlier.can_close(Some(id)) && closed == Some(id) {
                    law_closing_closes(earlier, id, at, 0);
                }
            },
            RequestEvent::Ended { .. } => {},
        }
        if recordings(request, state, shorter, id) == 1 {
            let last: Seq<RequestEvent> = seq![events.last()];
            if !earlier.finished {
                assert(is_closed(earlier, id.phase, 1));
            }
            law_later_closings_record_nothing(earlier, earlier_state, id, seq![]);
            law_later_closings_record_nothing(earlier, earlier_state, id, last);
            assert(last.drop_last() =~= seq![]);
            reveal_with_fuel(after_events, 3);
            assert(after_events(earlier, earlier_state, last) == after_event(
                earlier,
                earlier_state,
                events.last(),
            ));
        }
    }
}

} // verus!
