//! The end of a callback.

use vstd::prelude::*;

use tokio::time::Instant;

use crate::callback::completion::{
    callback_coordination_finish, classify_callback_completion, CallbackCompletion,
};
use crate::callback::coordination::{CallbackCoordinationRegistry, CoordinationMap};
use crate::metrics::clock::{Clock, Moment};
use crate::metrics::context::{ContextView, PhaseId, PhaseTimer, RequestMetricContext};
use crate::metrics::phase::RequestMetricResult;
use crate::metrics::state::{RequestMetricsState, StateView};

verus! {

/// How the request of a callback ended: as timed out where a timeout was marked that the
/// completion looks for, and as its completion says otherwise.
pub open spec fn callback_result(
    states: CoordinationMap,
    callback_id: i64,
    command_succeeded: bool,
    completion: CallbackCompletion,
) -> RequestMetricResult {
    if crate::callback::coordination::finish_timed_out(
        states,
        callback_id,
        crate::callback::completion::coordination_of(completion),
    ) {
        RequestMetricResult::Timeout
    } else {
        crate::callback::completion::classification(command_succeeded, completion)
    }
}

/// A request whose callback timers were closed at these moments.
pub open spec fn timers_closed(
    request: ContextView,
    callback_queue: Option<Option<PhaseId>>,
    callback_complete: Option<Option<PhaseId>>,
    waited: Moment,
    completed: Moment,
) -> ContextView {
    request.phase_closed(crate::callback::job::timer_id(callback_queue), waited).phase_closed(
        crate::callback::job::timer_id(callback_complete),
        completed,
    )
}

/// The moments at which the end of a callback reads the clock.
#[derive(Clone, Copy, Debug)]
pub struct FinishMoments {
    /// When the wait in the queue is closed.
    pub waited: Moment,
    /// When the completion is closed.
    pub completed: Moment,
    /// When the request ends.
    pub ended: Moment,
}

/// What a clock shows at the instants at which the end of a callback reads it.
pub open spec fn moments_shown(
    clock: Clock,
    waited: Instant,
    completed: Instant,
    ended: Instant,
) -> FinishMoments {
    FinishMoments {
        waited: clock.shows(waited),
        completed: clock.shows(completed),
        ended: clock.shows(ended),
    }
}

/// A request and its state after a callback ended at these moments with this result.
pub open spec fn request_ended(
    request: ContextView,
    state: StateView,
    callback_queue: Option<Option<PhaseId>>,
    callback_complete: Option<Option<PhaseId>>,
    result: RequestMetricResult,
    moments: FinishMoments,
) -> (ContextView, StateView) {
    let closed = timers_closed(
        request,
        callback_queue,
        callback_complete,
        moments.waited,
        moments.completed,
    );
    (closed.ended(moments.ended), closed.reported_to(state, result, moments.ended))
}

/// Ends a callback at these moments: closes its timers, settles a timeout, releases its command
/// and ends its sampled request, where there is one. How the request ended is returned.
///
/// Timers come with the request on which they were started. Where only the timers are to be closed
/// and the request stays open, it comes without a state.
pub fn finish_callback_at(
    registry: &mut CallbackCoordinationRegistry,
    callback_id: i64,
    request_metrics: Option<(&mut RequestMetricContext, Option<&mut RequestMetricsState>)>,
    callback_queue: Option<PhaseTimer>,
    callback_complete: Option<PhaseTimer>,
    command_succeeded: bool,
    completion: CallbackCompletion,
    finish_in_flight_command: impl FnOnce(),
    moments: FinishMoments,
) -> (result: RequestMetricResult)
    requires
        call_requires(finish_in_flight_command, ()),
        match request_metrics {
            Some((context, _)) => {
                &&& context@.started(
                    crate::callback::job::timer_id(crate::callback::job::timer_view(callback_queue)),
                )
                &&& context@.started(
                    crate::callback::job::timer_id(
                        crate::callback::job::timer_view(callback_complete),
                    ),
                )
            },
            None => callback_queue is None && callback_complete is None,
        },
        request_metrics matches Some((context, Some(state))) ==> state.wf() && state@.namespace
            == context@.namespace,
    ensures
        call_ensures(finish_in_flight_command, (), ()),
        result == callback_result(old(registry)@, callback_id, command_succeeded, completion),
        final(registry)@ == crate::callback::coordination::after_finish(
            old(registry)@,
            callback_id,
            crate::callback::completion::coordination_of(completion),
        ),
        request_metrics matches Some((context, Some(state))) ==> {
            &&& final(state).wf()
            &&& (final(context)@, final(state)@) == request_ended(
                context@,
                state@,
                crate::callback::job::timer_view(callback_queue),
                crate::callback::job::timer_view(callback_complete),
                result,
                moments,
            )
        },
        request_metrics matches Some((context, None)) ==> final(context)@ == timers_closed(
            context@,
            crate::callback::job::timer_view(callback_queue),
            crate::callback::job::timer_view(callback_complete),
            moments.waited,
            moments.completed,
        ),
{
    match request_metrics {
        Some((context, state)) => {
            close_timer(context, callback_queue, moments.waited);
            close_timer(context, callback_complete, moments.completed);
            let result = settle(
                registry,
                callback_id,
                command_succeeded,
                completion,
                finish_in_flight_command,
            );
            match state {
                Some(state) => {
                    context.finish_at(state, result, moments.ended);
                },
                None => {},
            }
            result
        },
        None => settle(
            registry,
            callback_id,
            command_succeeded,
            completion,
            finish_in_flight_command,
        ),
    }
}

fn close_timer(context: &mut RequestMetricContext, timer: Option<PhaseTimer>, now: Moment)
    requires
        old(context)@.started(
            crate::callback::job::timer_id(crate::callback::job::timer_view(timer)),
        ),
    ensures
        final(context)@ == old(context)@.phase_closed(
            crate::callback::job::timer_id(crate::callback::job::timer_view(timer)),
            now,
        ),
{
    match timer {
        Some(timer) => {
            timer.finish_at(context, now);
        },
        None => {},
    }
}

/// Settles a timeout, releases the command and says how the request ended.
fn settle(
    registry: &mut CallbackCoordinationRegistry,
    callback_id: i64,
    command_succeeded: bool,
    completion: CallbackCompletion,
    finish_in_flight_command: impl FnOnce(),
) -> (result: RequestMetricResult)
    requires
        call_requires(finish_in_flight_command, ()),
    ensures
        call_ensures(finish_in_flight_command, (), ()),
        result == callback_result(old(registry)@, callback_id, command_succeeded, completion),
        final(registry)@ == crate::callback::coordination::after_finish(
            old(registry)@,
            callback_id,
            crate::callback::completion::coordination_of(completion),
        ),
{
    let marked_timed_out = registry.finish(
        callback_id,
        callback_coordination_finish(completion),
        finish_in_flight_command,
    );
    if marked_timed_out {
        RequestMetricResult::Timeout
    } else {
        classify_callback_completion(command_succeeded, completion)
    }
}

/// Ends a callback now: closes its timers, settles a timeout, releases its command and ends its
/// sampled request, where there is one. How the request ended is returned.
///
/// Timers come with the request on which they were started. Where only the timers are to be closed
/// and the request stays open, it comes without a state.
pub fn finish_callback_with_registry(
    registry: &mut CallbackCoordinationRegistry,
    callback_id: i64,
    request_metrics: Option<(&mut RequestMetricContext, Option<&mut RequestMetricsState>)>,
    callback_queue: Option<PhaseTimer>,
    callback_complete: Option<PhaseTimer>,
    command_succeeded: bool,
    completion: CallbackCompletion,
    finish_in_flight_command: impl FnOnce(),
) -> (result: RequestMetricResult)
    requires
        call_requires(finish_in_flight_command, ()),
        match request_metrics {
            Some((context, _)) => {
                &&& context@.started(
                    crate::callback::job::timer_id(crate::callback::job::timer_view(callback_queue)),
                )
                &&& context@.started(
                    crate::callback::job::timer_id(
                        crate::callback::job::timer_view(callback_complete),
                    ),
                )
            },
            None => callback_queue is None && callback_complete is None,
        },
        request_metrics matches Some((context, Some(state))) ==> state.wf() && state@.namespace
            == context@.namespace,
    ensures
        call_ensures(finish_in_flight_command, (), ()),
        result == callback_result(old(registry)@, callback_id, command_succeeded, completion),
        final(registry)@ == crate::callback::coordination::after_finish(
            old(registry)@,
            callback_id,
            crate::callback::completion::coordination_of(completion),
        ),
        request_metrics matches Some((context, Some(state))) ==> {
            &&& final(state).wf()
            &&& exists|waited: Instant, completed: Instant, ended: Instant|
                (final(context)@, final(state)@) == request_ended(
                    context@,
                    state@,
                    crate::callback::job::timer_view(callback_queue),
                    crate::callback::job::timer_view(callback_complete),
                    result,
                    #[trigger] moments_shown(context@.clock, waited, completed, ended),
                )
        },
        request_metrics matches Some((context, None)) ==> exists|
            waited: Instant,
            completed: Instant,
        |
            final(context)@ == timers_closed(
                context@,
                crate::callback::job::timer_view(callback_queue),
                crate::callback::job::timer_view(callback_complete),
                #[trigger] context@.clock.shows(waited),
                #[trigger] context@.clock.shows(completed),
            ),
{
    match request_metrics {
        Some((context, state)) => {
            let ghost before = context@;
            let waited = context.now();
            close_timer(context, callback_queue, waited);
            let completed = context.now();
            close_timer(context, callback_complete, completed);
            let result = settle(
                registry,
                callback_id,
                command_succeeded,
                completion,
                finish_in_flight_command,
            );
            proof {
                let clock = before.clock;
                let first = choose|instant: Instant| waited == #[trigger] clock.shows(instant);
                let second = choose|instant: Instant| completed == #[trigger] clock.shows(instant);
                assert(context@ == timers_closed(
                    before,
                    crate::callback::job::timer_view(callback_queue),
                    crate::callback::job::timer_view(callback_complete),
                    clock.shows(first),
                    clock.shows(second),
                ));
            }
            match state {
                Some(state) => {
                    let ended = context.now();
                    let ghost reported = state@;
                    context.finish_at(state, result, ended);
                    proof {
                        let clock = before.clock;
                        let first = choose|instant: Instant|
                            waited == #[trigger] clock.shows(instant);
                        let second = choose|instant: Instant|
                            completed == #[trigger] clock.shows(instant);
                        let third = choose|instant: Instant|
                            ended == #[trigger] clock.shows(instant);
                        let moments = moments_shown(clock, first, second, third);
                        assert((context@, state@) == request_ended(
                            before,
                            reported,
                            crate::callback::job::timer_view(callback_queue),
                            crate::callback::job::timer_view(callback_complete),
                            result,
                            moments,
                        ));
                    }
                },
                None => {},
            }
            result
        },
        None => settle(
            registry,
            callback_id,
            command_succeeded,
            completion,
            finish_in_flight_command,
        ),
    }
}

/// How a callback ends: as timed out exactly where its completion says so, or where it failed and
/// finds a marked timeout; otherwise as its completion says.
pub proof fn law_marked_timeouts_win_over_failures(
    states: CoordinationMap,
    callback_id: i64,
    command_succeeded: bool,
    completion: CallbackCompletion,
)
    ensures
        ({
            let result = callback_result(states, callback_id, command_succeeded, completion);
            let timed_out = states.contains_pair(
                callback_id,
                crate::callback::coordination::CallbackCoordinationState::TimedOut,
            );
            &&& result == RequestMetricResult::Timeout <==> match completion {
                CallbackCompletion::TimedOutByMarker => true,
                CallbackCompletion::Failed(_) => timed_out,
                CallbackCompletion::Java(outcome) => match outcome {
                    crate::callback::completion::JavaCompletionOutcome::Timeout => true,
                    crate::callback::completion::JavaCompletionOutcome::TimeoutMarkMissed => true,
                    crate::callback::completion::JavaCompletionOutcome::NativeTimeout => true,
                    crate::callback::completion::JavaCompletionOutcome::Failure => timed_out,
                    crate::callback::completion::JavaCompletionOutcome::Completed => false,
                    crate::callback::completion::JavaCompletionOutcome::Cancelled => false,
                },
            }
            &&& result == RequestMetricResult::Success <==> command_succeeded && completion
                == CallbackCompletion::Java(
                crate::callback::completion::JavaCompletionOutcome::Completed,
            )
            &&& result == RequestMetricResult::Cancelled <==> completion == CallbackCompletion::Java(
                crate::callback::completion::JavaCompletionOutcome::Cancelled,
            )
        }),
{
}

/// The end of a callback is three things that happen to its request, in this order: its wait is
/// closed, its completion is closed, and it ends with the result of the callback.
pub proof fn law_callback_end_closes_and_ends(
    request: ContextView,
    state: StateView,
    queue: Option<PhaseId>,
    complete: Option<PhaseId>,
    result: RequestMetricResult,
    moments: FinishMoments,
)
    ensures
        request_ended(request, state, Some(queue), Some(complete), result, moments)
            == crate::metrics::laws::after_events(
            request,
            state,
            seq![
                crate::metrics::laws::RequestEvent::Closed { id: queue, at: moments.waited },
                crate::metrics::laws::RequestEvent::Closed { id: complete, at: moments.completed },
                crate::metrics::laws::RequestEvent::Ended { result, at: moments.ended },
            ],
        ),
        timers_closed(request, Some(queue), Some(complete), moments.waited, moments.completed)
            == crate::metrics::laws::after_events(
            request,
            state,
            seq![
                crate::metrics::laws::RequestEvent::Closed { id: queue, at: moments.waited },
                crate::metrics::laws::RequestEvent::Closed { id: complete, at: moments.completed },
            ],
        ).0,
        request_ended(request, state, None, None, result, moments)
            == crate::metrics::laws::after_event(
            request,
            state,
            crate::metrics::laws::RequestEvent::Ended { result, at: moments.ended },
        ),
        request_ended(request, state, None, Some(complete), result, moments) == request_ended(
            request,
            state,
            Some(None),
            Some(complete),
            result,
            moments,
        ),
        request_ended(request, state, Some(queue), None, result, moments) == request_ended(
            request,
            state,
            Some(queue),
            Some(None),
            result,
            moments,
        ),
{
    let first = crate::metrics::laws::RequestEvent::Closed { id: queue, at: moments.waited };
    let second = crate::metrics::laws::RequestEvent::Closed { id: complete, at: moments.completed };
    let ended = crate::metrics::laws::RequestEvent::Ended { result, at: moments.ended };
    reveal_with_fuel(crate::metrics::laws::after_events, 4);
    let all = seq![first, second, ended];
    assert(all.drop_last() =~= seq![first, second]);
    assert(seq![first, second].drop_last() =~= seq![first]);
    assert(seq![first].drop_last() =~= seq![]);
}

/// The end of a callback reads the clock of its request at each of the three instants.
pub proof fn law_moments_are_those_shown(
    clock: Clock,
    waited: Instant,
    completed: Instant,
    ended: Instant,
)
    ensures
        moments_shown(clock, waited, completed, ended).waited == clock.shows(waited),
        moments_shown(clock, waited, completed, ended).completed == clock.shows(completed),
        moments_shown(clock, waited, completed, ended).ended == clock.shows(ended),
{
}

} // verus!
