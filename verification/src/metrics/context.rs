//! The lifecycle of a sampled request.

use std::time::Duration;

use vstd::prelude::*;

use crate::metrics::clock::{duration_nanos, measure_interval, Clock, Moment};
use crate::metrics::counters::{saturating_add_u32, saturating_add_u64};
use crate::metrics::operation::{BoundedOperation, BoundedOperationKind};
use crate::metrics::phase::{RequestMetricPhase, RequestMetricResult, REQUEST_METRIC_PHASE_COUNT};
use crate::metrics::sample::{RequestMetricSample, SampleView};
use crate::metrics::state::{RequestMetricsState, StateView};

verus! {

/// A phase that was started and not yet closed.
#[derive(Clone, Copy, Debug)]
pub struct ActivePhase {
    pub id: u64,
    pub phase: RequestMetricPhase,
    pub started_at: Moment,
}

/// Which phase of which request a timer is for.
#[derive(Clone, Copy, Debug, PartialEq, Eq, Structural)]
pub struct PhaseId {
    /// The namespace of the state that selected the request.
    pub namespace: u64,
    /// The number of the request among those of its state.
    pub request: u64,
    /// The number of the phase among those of its request.
    pub phase: u64,
}

/// When a request was selected, by which clock, and by which state.
pub struct PendingView {
    pub started_at: Moment,
    pub clock: Clock,
    /// The namespace of the state that selected the request.
    pub namespace: u64,
    /// The number of the request among those of its state.
    pub number: u64,
}

/// What a sampled request holds.
#[verifier::ext_equal]
pub struct ContextView {
    pub operation: BoundedOperationKind,
    pub started_at: Moment,
    pub phase_nanos: Seq<u64>,
    pub attempt_count: u32,
    pub finished: bool,
    pub next_phase_id: u64,
    pub active: Seq<ActivePhase>,
    /// The clock that times the request.
    pub clock: Clock,
    /// The namespace of the state that selected the request, which it reports to.
    pub namespace: u64,
    /// The number of the request among those of its state.
    pub number: u64,
}

/// A request that was just bound to its operation.
pub open spec fn fresh_context(
    operation: BoundedOperationKind,
    pending: PendingView,
) -> ContextView {
    ContextView {
        operation,
        started_at: pending.started_at,
        phase_nanos: Seq::new(REQUEST_METRIC_PHASE_COUNT as nat, |i: int| 0u64),
        attempt_count: 0,
        finished: false,
        next_phase_id: 0,
        active: Seq::empty(),
        clock: pending.clock,
        namespace: pending.namespace,
        number: pending.number,
    }
}

/// Phase durations after `nanos` were added to one of them.
pub open spec fn add_nanos(
    durations: Seq<u64>,
    phase: RequestMetricPhase,
    nanos: u64,
) -> Seq<u64> {
    durations.update(
        phase.position(),
        crate::metrics::counters::saturated_u64(durations[phase.position()], nanos),
    )
}

/// Phase durations after all these phases were closed at this moment.
pub open spec fn close_all(durations: Seq<u64>, active: Seq<ActivePhase>, at: Moment) -> Seq<u64>
    decreases active.len(),
{
    if active.len() == 0 {
        durations
    } else {
        add_nanos(
            close_all(durations, active.drop_last(), at),
            active.last().phase,
            crate::metrics::clock::interval_nanos(active.last().started_at, at),
        )
    }
}

/// The first place, from `start` on, of an active phase with this id; the number of active phases
/// where there is none.
pub open spec fn first_with_id(active: Seq<ActivePhase>, id: u64, start: int) -> int
    decreases active.len() - start,
{
    if start < 0 || start >= active.len() || active[start].id == id {
        start
    } else {
        first_with_id(active, id, start + 1)
    }
}

impl ContextView {
    /// After a duration was recorded for a phase. A finished request records nothing.
    pub open spec fn recorded(self, phase: RequestMetricPhase, nanos: u64) -> ContextView {
        if self.finished {
            self
        } else {
            ContextView { phase_nanos: add_nanos(self.phase_nanos, phase, nanos), ..self }
        }
    }

    /// After attempts were added. A finished request counts none.
    pub open spec fn with_attempts(self, count: u32) -> ContextView {
        if self.finished {
            self
        } else {
            ContextView {
                attempt_count: crate::metrics::counters::saturated_u32(self.attempt_count, count),
                ..self
            }
        }
    }

    /// After a phase was started. A finished request starts none.
    pub open spec fn phase_started(self, phase: RequestMetricPhase, at: Moment) -> ContextView {
        if self.finished {
            self
        } else {
            ContextView {
                next_phase_id: crate::serial::following(self.next_phase_id),
                active: self.active.push(
                    ActivePhase { id: self.next_phase_id, phase, started_at: at },
                ),
                ..self
            }
        }
    }

    /// The id of the phase with this number.
    pub open spec fn phase_id(self, phase: u64) -> PhaseId {
        PhaseId { namespace: self.namespace, request: self.number, phase }
    }

    /// Whether an id is one of this request.
    pub open spec fn owns(self, id: PhaseId) -> bool {
        id.namespace == self.namespace && id.request == self.number
    }

    /// Whether a timer with this view was started on this request.
    pub open spec fn started(self, timer: Option<PhaseId>) -> bool {
        timer matches Some(id) ==> self.owns(id)
    }

    /// The id under which a phase that is started now is known.
    pub open spec fn started_id(self) -> Option<PhaseId> {
        if self.finished {
            None
        } else {
            Some(self.phase_id(self.next_phase_id))
        }
    }

    /// Whether closing the phase with this id would record it: it is a phase of this request that
    /// was not closed yet.
    pub open spec fn can_close(self, id: Option<PhaseId>) -> bool {
        match id {
            Some(id) => self.owns(id) && !self.finished && first_with_id(self.active, id.phase, 0)
                < self.active.len(),
            None => false,
        }
    }

    /// After the phase with this id was closed; as before where there is none.
    pub open spec fn phase_closed(self, id: Option<PhaseId>, at: Moment) -> ContextView {
        match id {
            Some(id) => {
                let place = first_with_id(self.active, id.phase, 0);
                if self.can_close(Some(id)) {
                    ContextView {
                        phase_nanos: add_nanos(
                            self.phase_nanos,
                            self.active[place].phase,
                            crate::metrics::clock::interval_nanos(
                                self.active[place].started_at,
                                at,
                            ),
                        ),
                        active: self.active.update(place, self.active.last()).drop_last(),
                        ..self
                    }
                } else {
                    self
                }
            },
            None => self,
        }
    }

    /// The phase durations of a request that ends at this moment: every open phase is closed, and
    /// the total is taken from the start of the request.
    pub open spec fn final_durations(self, at: Moment) -> Seq<u64> {
        add_nanos(
            close_all(self.phase_nanos, self.active, at),
            RequestMetricPhase::Total,
            crate::metrics::clock::interval_nanos(self.started_at, at),
        )
    }

    /// After the request ended at this moment.
    pub open spec fn ended(self, at: Moment) -> ContextView {
        if self.finished {
            self
        } else {
            ContextView {
                phase_nanos: self.final_durations(at),
                finished: true,
                active: Seq::empty(),
                ..self
            }
        }
    }

    /// What a request that ends at this moment reports.
    pub open spec fn report(self, result: RequestMetricResult, at: Moment) -> SampleView {
        SampleView {
            operation: self.operation,
            result,
            attempt_count: self.attempt_count,
            phase_nanos: self.final_durations(at),
        }
    }

    /// The state after the request ended at this moment with this result. A request that had
    /// already ended reports nothing.
    pub open spec fn reported_to(
        self,
        state: StateView,
        result: RequestMetricResult,
        at: Moment,
    ) -> StateView {
        if self.finished {
            state
        } else {
            state.offered(self.report(result, at))
        }
    }

    /// Whether no two active phases share an id, and all ids are below the next one.
    pub open spec fn ids_are_distinct(self) -> bool {
        &&& forall|i: int|
            0 <= i < self.active.len() ==> (#[trigger] self.active[i]).id < self.next_phase_id
        &&& forall|i: int, j: int|
            0 <= i < j < self.active.len() ==> (#[trigger] self.active[i]).id != (
            #[trigger] self.active[j]).id
    }
}

/// A sampled request whose operation is not known yet.
///
/// The value can only be moved: binding the operation uses it up, so that one selection leads to
/// one request.
pub struct PendingRequestMetricContext {
    started_at: Moment,
    clock: Clock,
    namespace: u64,
    number: u64,
}

impl View for PendingRequestMetricContext {
    type V = PendingView;

    closed spec fn view(&self) -> PendingView {
        PendingView {
            started_at: self.started_at,
            clock: self.clock,
            namespace: self.namespace,
            number: self.number,
        }
    }
}

impl PendingRequestMetricContext {
    /// The request with this number, selected at this moment of this clock by the state with this
    /// namespace.
    pub(crate) fn new(started_at: Moment, clock: Clock, namespace: u64, number: u64) -> (pending:
        PendingRequestMetricContext)
        ensures
            pending@ == (PendingView { started_at, clock, namespace, number }),
    {
        PendingRequestMetricContext { started_at, clock, namespace, number }
    }

    /// Binds the operation.
    pub fn bind(self, operation: BoundedOperation) -> (context: RequestMetricContext)
        ensures
            context@ == fresh_context(operation@, self@),
    {
        RequestMetricContext::new(operation, self)
    }

    /// Binds the operation and records a first phase, from the moment of selection until now.
    pub fn bind_and_record_phase(
        self,
        operation: BoundedOperation,
        phase: RequestMetricPhase,
    ) -> (context: RequestMetricContext)
        ensures
            exists|instant: tokio::time::Instant|
                context@ == fresh_context(operation@, self@).recorded(
                    phase,
                    crate::metrics::clock::interval_nanos(
                        self@.started_at,
                        #[trigger] self@.clock.shows(instant),
                    ),
                ),
    {
        assert(self@.clock == self.clock);
        let now = self.clock.now();
        self.bind_and_record_phase_at(operation, phase, now)
    }

    /// Binds the operation and records a first phase, from the moment of selection until `now`.
    pub fn bind_and_record_phase_at(
        self,
        operation: BoundedOperation,
        phase: RequestMetricPhase,
        now: Moment,
    ) -> (context: RequestMetricContext)
        ensures
            context@ == fresh_context(operation@, self@).recorded(
                phase,
                crate::metrics::clock::interval_nanos(self@.started_at, now),
            ),
    {
        let nanos = measure_interval(self.started_at, now);
        let mut context = self.bind(operation);
        context.record_phase_nanos(phase, nanos);
        context
    }
}

/// A sampled request.
pub struct RequestMetricContext {
    operation: BoundedOperation,
    started_at: Moment,
    phase_nanos: [u64; REQUEST_METRIC_PHASE_COUNT],
    attempt_count: u32,
    finished: bool,
    next_phase_id: u64,
    active_phases: Vec<ActivePhase>,
    clock: Clock,
    namespace: u64,
    number: u64,
}

impl View for RequestMetricContext {
    type V = ContextView;

    closed spec fn view(&self) -> ContextView {
        ContextView {
            operation: self.operation@,
            started_at: self.started_at,
            phase_nanos: self.phase_nanos@,
            attempt_count: self.attempt_count,
            finished: self.finished,
            next_phase_id: self.next_phase_id,
            active: self.active_phases@,
            clock: self.clock,
            namespace: self.namespace,
            number: self.number,
        }
    }
}

impl RequestMetricContext {
    fn new(operation: BoundedOperation, pending: PendingRequestMetricContext) -> (context:
        RequestMetricContext)
        ensures
            context@ == fresh_context(operation@, pending@),
    {
        let context = RequestMetricContext {
            operation,
            started_at: pending.started_at,
            phase_nanos: [0, 0, 0, 0, 0, 0, 0, 0, 0, 0, 0, 0],
            attempt_count: 0,
            finished: false,
            next_phase_id: 0,
            active_phases: Vec::new(),
            clock: pending.clock,
            namespace: pending.namespace,
            number: pending.number,
        };
        proof {
            assert(context@ =~= fresh_context(operation@, pending@));
        }
        context
    }

    /// A request has a duration for each phase.
    pub proof fn lemma_has_all_phases(&self)
        ensures
            self@.phase_nanos.len() == REQUEST_METRIC_PHASE_COUNT,
    {
    }

    /// The namespace of the state that the request reports to.
    pub fn namespace(&self) -> (namespace: u64)
        ensures
            namespace == self@.namespace,
    {
        self.namespace
    }

    /// Reads the clock of the request. Which instant it is read at depends on the time of the call.
    pub fn now(&self) -> (moment: Moment)
        ensures
            exists|instant: tokio::time::Instant| moment == #[trigger] self@.clock.shows(instant),
    {
        assert(self@.clock == self.clock);
        self.clock.now()
    }

    /// Starts a phase now.
    pub fn start_phase(&mut self, phase: RequestMetricPhase) -> (timer: PhaseTimer)
        ensures
            timer@ == old(self)@.started_id(),
            exists|instant: tokio::time::Instant|
                final(self)@ == old(self)@.phase_started(
                    phase,
                    #[trigger] old(self)@.clock.shows(instant),
                ),
    {
        assert(self@.clock == self.clock);
        let now = self.clock.now();
        self.start_phase_at(phase, now)
    }

    /// Starts a phase at `now`.
    pub fn start_phase_at(&mut self, phase: RequestMetricPhase, now: Moment) -> (timer: PhaseTimer)
        ensures
            timer@ == old(self)@.started_id(),
            final(self)@ == old(self)@.phase_started(phase, now),
    {
        let phase_id = if self.finished {
            None
        } else {
            let id = self.next_phase_id;
            self.next_phase_id = self.next_phase_id.wrapping_add(1);
            self.active_phases.push(ActivePhase { id, phase, started_at: now });
            Some(PhaseId { namespace: self.namespace, request: self.number, phase: id })
        };
        proof {
            assert(self@ =~= old(self)@.phase_started(phase, now));
        }
        PhaseTimer { phase_id }
    }

    /// Adds a duration to a phase.
    pub fn record_phase_duration(&mut self, phase: RequestMetricPhase, duration: Duration)
        ensures
            final(self)@ == old(self)@.recorded(
                phase,
                crate::metrics::clock::reported_nanos(crate::metrics::clock::total_nanos(duration)),
            ),
    {
        self.record_phase_nanos(phase, duration_nanos(duration));
    }

    /// Counts one attempt.
    pub fn increment_attempt_count(&mut self)
        ensures
            final(self)@ == old(self)@.with_attempts(1),
    {
        self.add_attempts(1);
    }

    /// Counts attempts.
    pub fn add_attempts(&mut self, count: u32)
        ensures
            final(self)@ == old(self)@.with_attempts(count),
    {
        if !self.finished {
            saturating_add_u32(&mut self.attempt_count, count);
        }
    }

    /// Ends the request now, once, and offers its sample without waiting to the state that
    /// selected it. Whether this call ended it is returned.
    pub fn finish(&mut self, state: &mut RequestMetricsState, result: RequestMetricResult) -> (ended:
        bool)
        requires
            old(state).wf(),
            old(state)@.namespace == old(self)@.namespace,
        ensures
            final(state).wf(),
            ended == !old(self)@.finished,
            exists|instant: tokio::time::Instant|
                final(self)@ == old(self)@.ended(#[trigger] old(self)@.clock.shows(instant))
                    && final(state)@ == old(self)@.reported_to(
                    old(state)@,
                    result,
                    old(self)@.clock.shows(instant),
                ),
    {
        assert(self@.clock == self.clock);
        let now = self.clock.now();
        self.finish_at(state, result, now)
    }

    /// Ends the request at `now`, once, and offers its sample without waiting to the state that
    /// selected it. Whether this call ended it is returned.
    pub fn finish_at(
        &mut self,
        state: &mut RequestMetricsState,
        result: RequestMetricResult,
        now: Moment,
    ) -> (ended: bool)
        requires
            old(state).wf(),
            old(state)@.namespace == old(self)@.namespace,
        ensures
            final(state).wf(),
            ended == !old(self)@.finished,
            final(self)@ == old(self)@.ended(now),
            final(state)@ == old(self)@.reported_to(old(state)@, result, now),
    {
        if self.finished {
            return false;
        }
        self.finished = true;
        let ghost before = old(self)@;
        let mut i: usize = 0;
        while i < self.active_phases.len()
            invariant
                i <= self.active_phases@.len(),
                before == old(self)@,
                self.finished,
                self@ == (ContextView {
                    finished: true,
                    phase_nanos: close_all(before.phase_nanos, before.active.take(i as int), now),
                    ..before
                }),
            decreases self.active_phases@.len() - i,
        {
            let active_phase = self.active_phases[i];
            proof {
                let closed = before.active.take(i + 1);
                assert(closed.drop_last() =~= before.active.take(i as int));
                assert(closed.last() == active_phase);
            }
            self.record_phase_nanos_uncoordinated(
                active_phase.phase,
                measure_interval(active_phase.started_at, now),
            );
            i = i + 1;
        }
        proof {
            assert(before.active.take(i as int) =~= before.active);
        }
        self.active_phases.clear();
        self.record_phase_nanos_uncoordinated(
            RequestMetricPhase::Total,
            measure_interval(self.started_at, now),
        );
        proof {
            assert(self@ =~= before.ended(now));
        }
        state.offer(
            RequestMetricSample::new(self.operation, result, self.attempt_count, self.phase_nanos),
        );
        true
    }

    /// Adds nanoseconds to a phase.
    pub fn record_phase_nanos(&mut self, phase: RequestMetricPhase, nanos: u64)
        ensures
            final(self)@ == old(self)@.recorded(phase, nanos),
    {
        if self.finished {
            return ;
        }
        self.record_phase_nanos_uncoordinated(phase, nanos);
    }

    fn record_phase_nanos_uncoordinated(&mut self, phase: RequestMetricPhase, nanos: u64)
        ensures
            final(self)@ == (ContextView {
                phase_nanos: add_nanos(old(self)@.phase_nanos, phase, nanos),
                ..old(self)@
            }),
    {
        let index = phase.index();
        let mut value = self.phase_nanos[index];
        saturating_add_u64(&mut value, nanos);
        self.phase_nanos[index] = value;
        proof {
            assert(self@ =~= (ContextView {
                phase_nanos: add_nanos(old(self)@.phase_nanos, phase, nanos),
                ..old(self)@
            }));
        }
    }

    fn finish_phase(&mut self, id: PhaseId, now: Moment) -> (recorded: bool)
        ensures
            recorded == old(self)@.can_close(Some(id)),
            final(self)@ == old(self)@.phase_closed(Some(id), now),
    {
        if self.finished || id.namespace != self.namespace || id.request != self.number {
            return false;
        }
        let mut i: usize = 0;
        while i < self.active_phases.len() && self.active_phases[i].id != id.phase
            invariant
                i <= self.active_phases@.len(),
                first_with_id(self@.active, id.phase, 0) == first_with_id(
                    self@.active,
                    id.phase,
                    i as int,
                ),
            decreases self.active_phases@.len() - i,
        {
            i = i + 1;
        }
        if i == self.active_phases.len() {
            return false;
        }
        let active_phase = self.active_phases.swap_remove(i);
        self.record_phase_nanos_uncoordinated(
            active_phase.phase,
            measure_interval(active_phase.started_at, now),
        );
        proof {
            assert(self@ =~= old(self)@.phase_closed(Some(id), now));
        }
        true
    }
}

/// A handle on a started phase. All clones close the same phase.
///
/// The handle names its request and does not hold it: to close the phase, that request is handed
/// in, and no other. A phase whose handles all go away unused is closed by the one that lets go of
/// the last of them, with `drop_last`; nothing runs by itself when a value goes out of scope.
#[derive(Clone, Copy, Debug)]
pub struct PhaseTimer {
    phase_id: Option<PhaseId>,
}

impl View for PhaseTimer {
    type V = Option<PhaseId>;

    /// The id of the phase; none where the request had already ended.
    closed spec fn view(&self) -> Option<PhaseId> {
        self.phase_id
    }
}

impl PhaseTimer {
    /// Whether the timer was started on this request.
    pub fn is_of(&self, context: &RequestMetricContext) -> (own: bool)
        ensures
            own == context@.started(self@),
    {
        match self.phase_id {
            Some(id) => id.namespace == context.namespace && id.request == context.number,
            None => true,
        }
    }

    /// Closes the phase of its request `context` now, once for all clones. Whether this call
    /// recorded it is returned.
    pub fn finish(&self, context: &mut RequestMetricContext) -> (recorded: bool)
        requires
            old(context)@.started(self@),
        ensures
            recorded == old(context)@.can_close(self@),
            exists|instant: tokio::time::Instant|
                final(context)@ == old(context)@.phase_closed(
                    self@,
                    #[trigger] old(context)@.clock.shows(instant),
                ),
    {
        assert(context@.clock == context.clock);
        let now = context.clock.now();
        self.finish_at(context, now)
    }

    /// Closes the phase of its request `context` at `now`, once for all clones. Whether this call
    /// recorded it is returned.
    pub fn finish_at(&self, context: &mut RequestMetricContext, now: Moment) -> (recorded: bool)
        requires
            old(context)@.started(self@),
        ensures
            recorded == old(context)@.can_close(self@),
            final(context)@ == old(context)@.phase_closed(self@, now),
    {
        match self.phase_id {
            Some(phase_id) => context.finish_phase(phase_id, now),
            None => false,
        }
    }

    /// What is done when the last clone goes away: the phase of its request `context` is closed
    /// now, where no clone has closed it. Whether this call recorded it is returned.
    pub fn drop_last(self, context: &mut RequestMetricContext) -> (recorded: bool)
        requires
            old(context)@.started(self@),
        ensures
            recorded == old(context)@.can_close(self@),
            exists|instant: tokio::time::Instant|
                final(context)@ == old(context)@.phase_closed(
                    self@,
                    #[trigger] old(context)@.clock.shows(instant),
                ),
    {
        self.finish(context)
    }
}

} // verus!
