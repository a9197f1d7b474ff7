//! The steps by which a worker completes a callback.
//!
//! Converting a response and completing a callback happen on the other side. This module decides
//! what is done next: a run is told what happened, and says what to do.

use vstd::prelude::*;

use tokio::time::Instant;

use crate::callback::completion::{CallbackCompletion, CallbackFailure, JavaCompletionOutcome};
use crate::callback::coordination::{CallbackCoordinationRegistry, CoordinationMap};
use crate::callback::finish::{finish_callback_at, finish_callback_with_registry, FinishMoments};
use crate::callback::job::{
    enqueue_callback_job, enqueue_callback_job_at, CallbackJob, CallbackQueue, JobView, QueueView,
};
use crate::metrics::clock::Moment;
use crate::metrics::context::{ContextView, RequestMetricContext};
use crate::metrics::phase::RequestMetricResult;
use crate::metrics::state::{RequestMetricsState, StateView};
use crate::response::value::{should_use_direct_buffer, ServerValue};

verus! {

/// What a command brought.
pub enum CommandOutcome {
    /// A value; large ones go through native memory.
    Value { value: ServerValue },
    /// An error of the server, with the code and the message that are handed on.
    ServerError { code: i32, message: String },
}

/// What is being delivered, or could not be.
#[derive(Clone, Copy, Debug, PartialEq, Eq, Structural)]
pub enum Delivery {
    Value,
    ConversionError,
    ServerError,
}

impl Delivery {
    /// The name under which a failure of this delivery is described.
    pub open spec fn stage_text(self) -> Seq<char> {
        match self {
            Delivery::Value => "complete_success_callback"@,
            Delivery::ConversionError => "complete_conversion_error_callback"@,
            Delivery::ServerError => "complete_server_error_callback"@,
        }
    }

    /// The name under which a failure of this delivery is described.
    pub fn stage_name(self) -> (name: &'static str)
        ensures
            name@ == self.stage_text(),
    {
        match self {
            Delivery::Value => "complete_success_callback",
            Delivery::ConversionError => "complete_conversion_error_callback",
            Delivery::ServerError => "complete_server_error_callback",
        }
    }

    /// The message with which all pending callbacks fail when this delivery failed.
    pub open spec fn sweep_text(self) -> Seq<char> {
        match self {
            Delivery::Value => "JNI callback completion failed — cached method IDs may be stale"@,
            _ => "JNI error callback completion failed — cached method IDs may be stale"@,
        }
    }

    /// The message with which all pending callbacks fail when this delivery failed.
    pub fn sweep_message(self) -> (message: &'static str)
        ensures
            message@ == self.sweep_text(),
    {
        match self {
            Delivery::Value => "JNI callback completion failed — cached method IDs may be stale",
            Delivery::ConversionError => "JNI error callback completion failed — cached method IDs may be stale",
            Delivery::ServerError => "JNI error callback completion failed — cached method IDs may be stale",
        }
    }
}

/// What a run waits for.
#[derive(Clone, Copy, Debug, PartialEq, Eq, Structural)]
pub enum CallbackStage {
    /// The response is being converted.
    Converting,
    /// The callback is being completed.
    Delivering { delivery: Delivery },
    /// A failed delivery is being recovered from.
    Recovering { delivery: Delivery },
    /// Nothing: the callback was ended.
    Done,
}

/// What happened.
pub enum CallbackEvent {
    /// The response was converted, or could not be, with the text of the error.
    Converted { conversion: Result<(), String> },
    /// The callback was completed, or could not be.
    Delivered { result: Result<JavaCompletionOutcome, ()> },
    /// The recovery is done.
    Recovered,
}

/// What to do.
pub enum CallbackAction {
    /// Convert the response, inside a new local frame.
    Convert { direct_buffer: bool, utf8: bool },
    /// Complete the callback with the converted response.
    DeliverValue { detailed: bool },
    /// Complete the callback with an error.
    DeliverError { code: i32, message: String, detailed: bool },
    /// Describe and clear the pending exception, drop the cached method ids and fail all pending
    /// callbacks.
    Recover { delivery: Delivery },
    /// Close the local frame, where one is open, and end the callback.
    Finish { frame_open: bool, command_succeeded: bool, completion: CallbackCompletion },
    /// Nothing: the event does not fit.
    Ignore,
}

/// What an action says.
pub enum ActionView {
    Convert { direct_buffer: bool, utf8: bool },
    DeliverValue { detailed: bool },
    DeliverError { code: i32, message: Seq<char>, detailed: bool },
    Recover { delivery: Delivery },
    Finish { frame_open: bool, command_succeeded: bool, completion: CallbackCompletion },
    Ignore,
}

impl View for CallbackAction {
    type V = ActionView;

    open spec fn view(&self) -> ActionView {
        match *self {
            CallbackAction::Convert { direct_buffer, utf8 } => ActionView::Convert {
                direct_buffer,
                utf8,
            },
            CallbackAction::DeliverValue { detailed } => ActionView::DeliverValue { detailed },
            CallbackAction::DeliverError { code, message, detailed } => ActionView::DeliverError {
                code,
                message: message@,
                detailed,
            },
            CallbackAction::Recover { delivery } => ActionView::Recover { delivery },
            CallbackAction::Finish { frame_open, command_succeeded, completion } => ActionView::Finish {
                frame_open,
                command_succeeded,
                completion,
            },
            CallbackAction::Ignore => ActionView::Ignore,
        }
    }
}

/// The completion of one callback by a worker.
#[derive(Clone, Copy, Debug, PartialEq, Eq, Structural)]
pub struct CallbackRun {
    pub callback_id: i64,
    pub detailed_completion: bool,
    pub stage: CallbackStage,
}

/// The end of a callback whose timeout was marked before its result was delivered.
pub open spec fn dropped_after_timeout(frame_open: bool) -> ActionView {
    ActionView::Finish {
        frame_open,
        command_succeeded: false,
        completion: CallbackCompletion::TimedOutByMarker,
    }
}

/// The first step of a run: what it waits for, and what to do.
pub open spec fn first_step(
    states: CoordinationMap,
    callback_id: i64,
    detailed_completion: bool,
    binary_mode: bool,
    outcome: CommandOutcome,
) -> (CallbackStage, ActionView) {
    if crate::callback::coordination::marked(states, callback_id) {
        (CallbackStage::Done, dropped_after_timeout(false))
    } else {
        match outcome {
            CommandOutcome::Value { value } => (
                CallbackStage::Converting,
                ActionView::Convert {
                    direct_buffer: crate::response::value::uses_direct_buffer(value),
                    utf8: !binary_mode,
                },
            ),
            CommandOutcome::ServerError { code, message } => (
                CallbackStage::Delivering { delivery: Delivery::ServerError },
                ActionView::DeliverError { code, message: message@, detailed: detailed_completion },
            ),
        }
    }
}

/// How a callback ends whose delivery was answered, and whether its command counts as successful.
pub open spec fn delivered_end(delivery: Delivery, outcome: JavaCompletionOutcome) -> (
    bool,
    CallbackCompletion,
) {
    if delivery == Delivery::ConversionError && outcome == JavaCompletionOutcome::Completed {
        (false, CallbackCompletion::Failed(CallbackFailure::Conversion))
    } else {
        (delivery == Delivery::Value, CallbackCompletion::Java(outcome))
    }
}

/// A later step of a run: what it waits for, and what to do.
pub open spec fn next_step(
    states: CoordinationMap,
    run: CallbackRun,
    event: CallbackEvent,
) -> (CallbackStage, ActionView) {
    match (run.stage, event) {
        (CallbackStage::Converting, CallbackEvent::Converted { conversion }) => {
            if crate::callback::coordination::marked(states, run.callback_id) {
                (CallbackStage::Done, dropped_after_timeout(true))
            } else {
                match conversion {
                    Ok(_) => (
                        CallbackStage::Delivering { delivery: Delivery::Value },
                        ActionView::DeliverValue { detailed: run.detailed_completion },
                    ),
                    Err(error) => (
                        CallbackStage::Delivering { delivery: Delivery::ConversionError },
                        ActionView::DeliverError {
                            code: 0,
                            message: "Response conversion failed: "@ + error@,
                            detailed: run.detailed_completion,
                        },
                    ),
                }
            }
        },
        (CallbackStage::Delivering { delivery }, CallbackEvent::Delivered { result }) => match result {
            Ok(outcome) => (
                CallbackStage::Done,
                ActionView::Finish {
                    frame_open: delivery != Delivery::ServerError,
                    command_succeeded: delivered_end(delivery, outcome).0,
                    completion: delivered_end(delivery, outcome).1,
                },
            ),
            Err(_) => (CallbackStage::Recovering { delivery }, ActionView::Recover { delivery }),
        },
        (CallbackStage::Recovering { delivery }, CallbackEvent::Recovered) => (
            CallbackStage::Done,
            ActionView::Finish {
                frame_open: delivery != Delivery::ServerError,
                command_succeeded: false,
                completion: CallbackCompletion::Failed(CallbackFailure::JniDelivery),
            },
        ),
        _ => (run.stage, ActionView::Ignore),
    }
}

/// The states after a step: a step that looks for a timeout takes it.
pub open spec fn states_after_step(
    states: CoordinationMap,
    run: CallbackRun,
    event: CallbackEvent,
) -> CoordinationMap {
    match (run.stage, event) {
        (CallbackStage::Converting, CallbackEvent::Converted { conversion }) => crate::callback::coordination::after_take(
            states,
            run.callback_id,
        ),
        _ => states,
    }
}

impl CallbackRun {
    /// Starts to complete a callback.
    pub fn start(
        registry: &mut CallbackCoordinationRegistry,
        callback_id: i64,
        detailed_completion: bool,
        binary_mode: bool,
        outcome: CommandOutcome,
    ) -> (begun: (CallbackRun, CallbackAction))
        ensures
            begun.0.callback_id == callback_id,
            begun.0.detailed_completion == detailed_completion,
            (begun.0.stage, begun.1@) == first_step(
                old(registry)@,
                callback_id,
                detailed_completion,
                binary_mode,
                outcome,
            ),
            final(registry)@ == crate::callback::coordination::after_take(
                old(registry)@,
                callback_id,
            ),
    {
        let (stage, action) = if registry.take_timed_out(callback_id) {
            (
                CallbackStage::Done,
                CallbackAction::Finish {
                    frame_open: false,
                    command_succeeded: false,
                    completion: CallbackCompletion::TimedOutByMarker,
                },
            )
        } else {
            match outcome {
                CommandOutcome::Value { value } => (
                    CallbackStage::Converting,
                    CallbackAction::Convert {
                        direct_buffer: should_use_direct_buffer(&value),
                        utf8: !binary_mode,
                    },
                ),
                CommandOutcome::ServerError { code, message } => (
                    CallbackStage::Delivering { delivery: Delivery::ServerError },
                    CallbackAction::DeliverError { code, message, detailed: detailed_completion },
                ),
            }
        };
        (CallbackRun { callback_id, detailed_completion, stage }, action)
    }

    /// Takes what happened and says what to do next.
    pub fn step(
        &mut self,
        registry: &mut CallbackCoordinationRegistry,
        event: CallbackEvent,
    ) -> (action: CallbackAction)
        ensures
            (final(self).stage, action@) == next_step(old(registry)@, *old(self), event),
            final(self).callback_id == old(self).callback_id,
            final(self).detailed_completion == old(self).detailed_completion,
            final(registry)@ == states_after_step(old(registry)@, *old(self), event),
    {
        match event {
            CallbackEvent::Converted { conversion } => match self.stage {
                CallbackStage::Converting => {
                    if registry.take_timed_out(self.callback_id) {
                        self.stage = CallbackStage::Done;
                        return CallbackAction::Finish {
                            frame_open: true,
                            command_succeeded: false,
                            completion: CallbackCompletion::TimedOutByMarker,
                        };
                    }
                    match conversion {
                        Ok(()) => {
                            self.stage = CallbackStage::Delivering { delivery: Delivery::Value };
                            CallbackAction::DeliverValue { detailed: self.detailed_completion }
                        },
                        Err(error) => {
                            self.stage = CallbackStage::Delivering {
                                delivery: Delivery::ConversionError,
                            };
                            let mut message = "Response conversion failed: ".to_owned();
                            message.append(error.as_str());
                            CallbackAction::DeliverError {
                                code: 0,
                                message,
                                detailed: self.detailed_completion,
                            }
                        },
                    }
                },
                _ => CallbackAction::Ignore,
            },
            CallbackEvent::Delivered { result } => match self.stage {
                CallbackStage::Delivering { delivery } => match result {
                    Ok(outcome) => {
                        self.stage = CallbackStage::Done;
                        let (command_succeeded, completion) = if delivery
                            == Delivery::ConversionError && outcome
                            == JavaCompletionOutcome::Completed {
                            (false, CallbackCompletion::Failed(CallbackFailure::Conversion))
                        } else {
                            (delivery == Delivery::Value, CallbackCompletion::Java(outcome))
                        };
                        CallbackAction::Finish {
                            frame_open: delivery != Delivery::ServerError,
                            command_succeeded,
                            completion,
                        }
                    },
                    Err(()) => {
                        self.stage = CallbackStage::Recovering { delivery };
                        CallbackAction::Recover { delivery }
                    },
                },
                _ => CallbackAction::Ignore,
            },
            CallbackEvent::Recovered => match self.stage {
                CallbackStage::Recovering { delivery } => {
                    self.stage = CallbackStage::Done;
                    CallbackAction::Finish {
                        frame_open: delivery != Delivery::ServerError,
                        command_succeeded: false,
                        completion: CallbackCompletion::Failed(CallbackFailure::JniDelivery),
                    }
                },
                _ => CallbackAction::Ignore,
            },
        }
    }
}

/// How many steps a run can still take.
pub open spec fn steps_left(stage: CallbackStage) -> nat {
    match stage {
        CallbackStage::Converting => 3,
        CallbackStage::Delivering { .. } => 2,
        CallbackStage::Recovering { .. } => 1,
        CallbackStage::Done => 0,
    }
}

/// A run comes to its end: every event that fits brings it closer, it is ended by exactly the step
/// that leads to its last stage, and after that nothing is done any more.
pub proof fn law_run_ends_once(states: CoordinationMap, run: CallbackRun, event: CallbackEvent)
    ensures
        ({
            let (stage, action) = next_step(states, run, event);
            &&& action is Ignore ==> stage == run.stage
            &&& !(action is Ignore) ==> steps_left(stage) < steps_left(run.stage)
            &&& action is Finish <==> run.stage != CallbackStage::Done && stage
                == CallbackStage::Done
            &&& run.stage == CallbackStage::Done ==> action is Ignore
        }),
{
}

/// A callback ends as successful only where its value was converted and taken by the other side.
pub proof fn law_run_succeeds_only_by_delivery(
    states: CoordinationMap,
    run: CallbackRun,
    event: CallbackEvent,
)
    ensures
        ({
            let (_, action) = next_step(states, run, event);
            action matches ActionView::Finish { command_succeeded, completion, .. }
                && crate::callback::completion::classification(command_succeeded, completion)
                == RequestMetricResult::Success ==> {
                &&& run.stage == (CallbackStage::Delivering { delivery: Delivery::Value })
                &&& event matches CallbackEvent::Delivered { result } && result == Ok::<
                    JavaCompletionOutcome,
                    (),
                >(JavaCompletionOutcome::Completed)
            }
        }),
{
}

/// The action that ends a run which is delivering and hears this answer; a delivery that failed is
/// recovered from first.
pub open spec fn delivery_end(
    states: CoordinationMap,
    run: CallbackRun,
    result: Result<JavaCompletionOutcome, ()>,
) -> ActionView {
    let (stage, action) = next_step(states, run, CallbackEvent::Delivered { result });
    if result is Ok {
        action
    } else {
        next_step(states, CallbackRun { stage, ..run }, CallbackEvent::Recovered).1
    }
}

/// How a run ends that was not timed out. A value that was converted and taken counts as a
/// success of the command, and its answer is the completion. A response that could not be
/// converted never does: it ends as a failed conversion where the error was taken, and by the
/// answer where it was not. A delivery that failed ends as such. The frame of the conversion is
/// closed on every way.
pub proof fn law_value_run_outcome(
    states: CoordinationMap,
    run: CallbackRun,
    conversion: Result<(), String>,
    result: Result<JavaCompletionOutcome, ()>,
)
    requires
        run.stage == CallbackStage::Converting,
        !crate::callback::coordination::marked(states, run.callback_id),
    ensures
        ({
            let (stage, _) = next_step(states, run, CallbackEvent::Converted { conversion });
            delivery_end(states, CallbackRun { stage, ..run }, result) == ActionView::Finish {
                frame_open: true,
                command_succeeded: conversion is Ok && result is Ok,
                completion: match result {
                    Ok(outcome) => if conversion is Err && outcome
                        == JavaCompletionOutcome::Completed {
                        CallbackCompletion::Failed(CallbackFailure::Conversion)
                    } else {
                        CallbackCompletion::Java(outcome)
                    },
                    Err(_) => CallbackCompletion::Failed(CallbackFailure::JniDelivery),
                },
            }
        }),
{
}

/// How a run ends that delivers an error of the server: never as a success of the command, and
/// with no frame to close.
pub proof fn law_error_run_outcome(
    states: CoordinationMap,
    run: CallbackRun,
    result: Result<JavaCompletionOutcome, ()>,
)
    requires
        run.stage == (CallbackStage::Delivering { delivery: Delivery::ServerError }),
    ensures
        delivery_end(states, run, result) == (ActionView::Finish {
            frame_open: false,
            command_succeeded: false,
            completion: match result {
                Ok(outcome) => CallbackCompletion::Java(outcome),
                Err(_) => CallbackCompletion::Failed(CallbackFailure::JniDelivery),
            },
        }),
{
}

/// A timeout that is marked while a response is converted wins: the result is dropped, and the
/// request ends as timed out.
pub proof fn law_marked_timeout_wins(
    states: CoordinationMap,
    run: CallbackRun,
    conversion: Result<(), String>,
)
    requires
        run.stage == CallbackStage::Converting,
        crate::callback::coordination::marked(states, run.callback_id),
    ensures
        next_step(states, run, CallbackEvent::Converted { conversion }) == (
            CallbackStage::Done,
            dropped_after_timeout(true),
        ),
        crate::callback::completion::classification(false, CallbackCompletion::TimedOutByMarker)
            == RequestMetricResult::Timeout,
        !crate::callback::coordination::marked(
            states_after_step(states, run, CallbackEvent::Converted { conversion }),
            run.callback_id,
        ),
{
}

/// The message with which all pending callbacks fail when there are no workers.
pub const WORKERS_TERMINATED: &'static str = "Native callback workers terminated — all pending requests failed";

/// What a request holds, where there is one with its state.
pub open spec fn sampled_view(
    request_metrics: Option<(RequestMetricContext, &mut RequestMetricsState)>,
) -> Option<ContextView> {
    match request_metrics {
        Some((request, _)) => Some(request@),
        None => None,
    }
}

/// Hands a completed command to the workers, with its sampled request, where there is one. Where
/// there are no workers, the callback is ended as failed, and all pending callbacks are to fail
/// with the message that is returned.
pub fn complete_callback_with_metrics<P>(
    queue: &mut CallbackQueue<P>,
    registry: &mut CallbackCoordinationRegistry,
    callback_id: i64,
    payload: P,
    request_metrics: Option<(RequestMetricContext, &mut RequestMetricsState)>,
    detailed_completion: bool,
    finish_in_flight_command: impl FnOnce(),
) -> (sweep: Option<&'static str>)
    requires
        !old(queue)@.open ==> call_requires(finish_in_flight_command, ()),
        request_metrics matches Some((request, state)) ==> state.wf() && state@.namespace
            == request@.namespace,
    ensures
        old(queue)@.open ==> {
            &&& sweep is None
            &&& final(registry)@ == old(registry)@
            &&& exists|queued: Instant|
                final(queue)@ == (QueueView {
                    jobs: old(queue)@.jobs.push(
                        #[trigger] new_job(
                            callback_id,
                            payload,
                            sampled_view(request_metrics),
                            detailed_completion,
                        ).queued_at(queued),
                    ),
                    ..old(queue)@
                })
            &&& request_metrics matches Some((_, state)) ==> {
                &&& final(state).wf()
                &&& final(state)@ == state@
            }
        },
        !old(queue)@.open ==> {
            &&& sweep matches Some(message) && message@ == WORKERS_TERMINATED@
            &&& call_ensures(finish_in_flight_command, (), ())
            &&& final(queue)@ == old(queue)@
            &&& final(registry)@ == crate::callback::coordination::after_finish(
                old(registry)@,
                callback_id,
                crate::callback::coordination::CallbackCoordinationFinish::CheckForTimeout,
            )
            &&& request_metrics matches Some((request, state)) ==> {
                &&& final(state).wf()
                &&& exists|queued: Instant, waited: Instant, completed: Instant, ended: Instant|
                    final(state)@ == refused_state(
                        request@,
                        state@,
                        refused_result(old(registry)@, callback_id),
                        #[trigger] request@.clock.shows(queued),
                        #[trigger] crate::callback::finish::moments_shown(
                            request@.clock,
                            waited,
                            completed,
                            ended,
                        ),
                    )
            }
        },
{
    match request_metrics {
        Some((request, state)) => {
            let ghost sampled = request@;
            let job = CallbackJob::new(callback_id, payload, Some(request), detailed_completion);
            let ghost unqueued = job@;
            match enqueue_callback_job(queue, job) {
                Ok(()) => None,
                Err(failed) => {
                    let ghost queued = choose|instant: Instant|
                        failed@ == #[trigger] unqueued.queued_at(instant);
                    let callback_queue = failed.callback_queue;
                    let mut failed_request = failed.request_metrics;
                    match &mut failed_request {
                        Some(context) => {
                            let ghost before = state@;
                            let result = finish_callback_with_registry(
                                registry,
                                callback_id,
                                Some((&mut *context, Some(&mut *state))),
                                callback_queue,
                                None,
                                false,
                                CallbackCompletion::Failed(CallbackFailure::Channel),
                                finish_in_flight_command,
                            );
                            proof {
                                let start = sampled.clock.shows(queued);
                                let (waited, completed, ended) = choose|
                                    waited: Instant,
                                    completed: Instant,
                                    ended: Instant,
                                |
                                    (context@, state@) == crate::callback::finish::request_ended(
                                        queued_request(sampled, start),
                                        before,
                                        Some(sampled.started_id()),
                                        None,
                                        result,
                                        #[trigger] crate::callback::finish::moments_shown(
                                            sampled.clock,
                                            waited,
                                            completed,
                                            ended,
                                        ),
                                    );
                                let moments = crate::callback::finish::moments_shown(
                                    sampled.clock,
                                    waited,
                                    completed,
                                    ended,
                                );
                                assert(state@ == refused_state(
                                    sampled,
                                    before,
                                    result,
                                    start,
                                    moments,
                                ));
                            }
                        },
                        None => {},
                    }
                    Some(WORKERS_TERMINATED)
                },
            }
        },
        None => {
            let job = CallbackJob::new(callback_id, payload, None, detailed_completion);
            match enqueue_callback_job(queue, job) {
                Ok(()) => None,
                Err(_) => {
                    finish_callback_with_registry(
                        registry,
                        callback_id,
                        None,
                        None,
                        None,
                        false,
                        CallbackCompletion::Failed(CallbackFailure::Channel),
                        finish_in_flight_command,
                    );
                    Some(WORKERS_TERMINATED)
                },
            }
        },
    }
}

/// Hands a completed command to the workers at `queued`, with its sampled request, where there is
/// one. Where there are no workers, the callback is ended as failed at `moments`, and all pending
/// callbacks are to fail with the message that is returned.
pub fn complete_callback_with_metrics_at<P>(
    queue: &mut CallbackQueue<P>,
    registry: &mut CallbackCoordinationRegistry,
    callback_id: i64,
    payload: P,
    request_metrics: Option<(RequestMetricContext, &mut RequestMetricsState)>,
    detailed_completion: bool,
    finish_in_flight_command: impl FnOnce(),
    queued: Moment,
    moments: FinishMoments,
) -> (sweep: Option<&'static str>)
    requires
        !old(queue)@.open ==> call_requires(finish_in_flight_command, ()),
        request_metrics matches Some((request, state)) ==> state.wf() && state@.namespace
            == request@.namespace,
    ensures
        old(queue)@.open ==> {
            &&& sweep is None
            &&& final(registry)@ == old(registry)@
            &&& final(queue)@ == (QueueView {
                jobs: old(queue)@.jobs.push(
                    new_job(
                        callback_id,
                        payload,
                        sampled_view(request_metrics),
                        detailed_completion,
                    ).queued(queued),
                ),
                ..old(queue)@
            })
            &&& request_metrics matches Some((_, state)) ==> {
                &&& final(state).wf()
                &&& final(state)@ == state@
            }
        },
        !old(queue)@.open ==> {
            &&& sweep matches Some(message) && message@ == WORKERS_TERMINATED@
            &&& call_ensures(finish_in_flight_command, (), ())
            &&& final(queue)@ == old(queue)@
            &&& final(registry)@ == crate::callback::coordination::after_finish(
                old(registry)@,
                callback_id,
                crate::callback::coordination::CallbackCoordinationFinish::CheckForTimeout,
            )
            &&& request_metrics matches Some((request, state)) ==> {
                &&& final(state).wf()
                &&& final(state)@ == refused_state(
                    request@,
                    state@,
                    refused_result(old(registry)@, callback_id),
                    queued,
                    moments,
                )
            }
        },
{
    match request_metrics {
        Some((request, state)) => {
            let job = CallbackJob::new(callback_id, payload, Some(request), detailed_completion);
            match enqueue_callback_job_at(queue, job, queued) {
                Ok(()) => None,
                Err(failed) => {
                    let callback_queue = failed.callback_queue;
                    let mut failed_request = failed.request_metrics;
                    match &mut failed_request {
                        Some(context) => {
                            finish_callback_at(
                                registry,
                                callback_id,
                                Some((&mut *context, Some(&mut *state))),
                                callback_queue,
                                None,
                                false,
                                CallbackCompletion::Failed(CallbackFailure::Channel),
                                finish_in_flight_command,
                                moments,
                            );
                        },
                        None => {},
                    }
                    Some(WORKERS_TERMINATED)
                },
            }
        },
        None => {
            let job = CallbackJob::new(callback_id, payload, None, detailed_completion);
            match enqueue_callback_job_at(queue, job, queued) {
                Ok(()) => None,
                Err(_) => {
                    finish_callback_at(
                        registry,
                        callback_id,
                        None,
                        None,
                        None,
                        false,
                        CallbackCompletion::Failed(CallbackFailure::Channel),
                        finish_in_flight_command,
                        moments,
                    );
                    Some(WORKERS_TERMINATED)
                },
            }
        },
    }
}

/// How the request of a callback ended that no worker took.
pub open spec fn refused_result(states: CoordinationMap, callback_id: i64) -> RequestMetricResult {
    crate::callback::finish::callback_result(
        states,
        callback_id,
        false,
        CallbackCompletion::Failed(CallbackFailure::Channel),
    )
}

/// The state after a request reported whose callback was queued at this moment, taken by no
/// worker, and ended at these moments.
pub open spec fn refused_state(
    request: ContextView,
    state: StateView,
    result: RequestMetricResult,
    queued: Moment,
    moments: FinishMoments,
) -> StateView {
    crate::callback::finish::request_ended(
        queued_request(request, queued),
        state,
        Some(request.started_id()),
        None,
        result,
        moments,
    ).1
}

/// A job that was not queued yet.
pub open spec fn new_job<P>(
    callback_id: i64,
    payload: P,
    request: Option<ContextView>,
    detailed_completion: bool,
) -> JobView<P> {
    JobView { callback_id, payload, request, detailed_completion, callback_queue: None }
}

/// A request whose wait for a worker started at this moment.
pub open spec fn queued_request(request: ContextView, queued: Moment) -> ContextView {
    request.phase_started(crate::metrics::phase::RequestMetricPhase::CallbackQueue, queued)
}

/// Hands a completed command of an unsampled request to the workers.
pub fn complete_callback<P>(
    queue: &mut CallbackQueue<P>,
    registry: &mut CallbackCoordinationRegistry,
    callback_id: i64,
    payload: P,
    finish_in_flight_command: impl FnOnce(),
) -> (sweep: Option<&'static str>)
    requires
        !old(queue)@.open ==> call_requires(finish_in_flight_command, ()),
    ensures
        old(queue)@.open ==> {
            &&& sweep is None
            &&& final(registry)@ == old(registry)@
            &&& final(queue)@ == (QueueView {
                jobs: old(queue)@.jobs.push(new_job(callback_id, payload, None, false)),
                ..old(queue)@
            })
        },
        !old(queue)@.open ==> {
            &&& sweep matches Some(message) && message@ == WORKERS_TERMINATED@
            &&& call_ensures(finish_in_flight_command, (), ())
            &&& final(queue)@ == old(queue)@
            &&& final(registry)@ == crate::callback::coordination::after_finish(
                old(registry)@,
                callback_id,
                crate::callback::coordination::CallbackCoordinationFinish::CheckForTimeout,
            )
        },
{
    complete_callback_with_metrics(
        queue,
        registry,
        callback_id,
        payload,
        None,
        false,
        finish_in_flight_command,
    )
}

/// The first action for a command. Where a timeout was marked, its result is dropped. Otherwise a
/// value is converted: as text exactly where the command was not in binary mode, and through native
/// memory exactly where the value goes there. An error of the server is handed on as it is.
pub proof fn law_first_action(
    states: CoordinationMap,
    callback_id: i64,
    detailed: bool,
    binary_mode: bool,
    outcome: CommandOutcome,
)
    ensures
        ({
            let (stage, action) = first_step(states, callback_id, detailed, binary_mode, outcome);
            let timed_out = states.contains_pair(
                callback_id,
                crate::callback::coordination::CallbackCoordinationState::TimedOut,
            );
            &&& timed_out ==> stage == CallbackStage::Done && action == (ActionView::Finish {
                frame_open: false,
                command_succeeded: false,
                completion: CallbackCompletion::TimedOutByMarker,
            })
            &&& !timed_out ==> match outcome {
                CommandOutcome::Value { value } => {
                    &&& stage == CallbackStage::Converting
                    &&& action matches ActionView::Convert { direct_buffer, utf8 } && (utf8
                        <==> !binary_mode) && (direct_buffer
                        <==> crate::response::value::uses_direct_buffer(value))
                },
                CommandOutcome::ServerError { code, message } => {
                    &&& stage == (CallbackStage::Delivering { delivery: Delivery::ServerError })
                    &&& action matches ActionView::DeliverError {
                        code: told,
                        message: text,
                        detailed: asked,
                    } && told == code && text == message@ && asked == detailed
                },
            }
        }),
{
}

/// Commands that differ only in binary mode are converted alike but for the encoding, which differs.
pub proof fn law_binary_mode_decides_the_encoding(
    states: CoordinationMap,
    callback_id: i64,
    detailed: bool,
    value: ServerValue,
)
    requires
        !crate::callback::coordination::marked(states, callback_id),
    ensures
        ({
            let outcome = CommandOutcome::Value { value };
            let (text_stage, text) = first_step(states, callback_id, detailed, false, outcome);
            let (raw_stage, raw) = first_step(states, callback_id, detailed, true, outcome);
            &&& text_stage == raw_stage
            &&& text matches ActionView::Convert { direct_buffer, utf8 } && utf8 && raw
                == (ActionView::Convert { direct_buffer, utf8: false })
        }),
{
}

/// What follows a conversion where no timeout was marked: a converted value is delivered, and a
/// failed conversion is told with the text of its error and without a code. The answer is asked for
/// as the command asked.
pub proof fn law_conversion_is_followed_by_delivery(
    states: CoordinationMap,
    run: CallbackRun,
    error: String,
)
    requires
        run.stage == CallbackStage::Converting,
        !crate::callback::coordination::marked(states, run.callback_id),
    ensures
        next_step(states, run, CallbackEvent::Converted { conversion: Ok(()) }) == (
            CallbackStage::Delivering { delivery: Delivery::Value },
            ActionView::DeliverValue { detailed: run.detailed_completion },
        ),
        ({
            let (stage, action) = next_step(
                states,
                run,
                CallbackEvent::Converted { conversion: Err(error) },
            );
            &&& stage == (CallbackStage::Delivering { delivery: Delivery::ConversionError })
            &&& action matches ActionView::DeliverError { code, message, detailed } && code == 0
                && message == "Response conversion failed: "@ + error@ && detailed
                == run.detailed_completion
        }),
        states_after_step(states, run, CallbackEvent::Converted { conversion: Ok(()) }) == states,
{
}

/// A delivery that failed is recovered from before the callback ends, and the recovery knows what
/// was being delivered.
pub proof fn law_failed_delivery_is_recovered_from(
    states: CoordinationMap,
    run: CallbackRun,
    delivery: Delivery,
)
    requires
        run.stage == (CallbackStage::Delivering { delivery }),
    ensures
        next_step(states, run, CallbackEvent::Delivered { result: Err(()) }) == (
            CallbackStage::Recovering { delivery },
            ActionView::Recover { delivery },
        ),
        next_step(
            states,
            CallbackRun { stage: CallbackStage::Recovering { delivery }, ..run },
            CallbackEvent::Recovered,
        ) == (
            CallbackStage::Done,
            ActionView::Finish {
                frame_open: delivery == Delivery::Value || delivery == Delivery::ConversionError,
                command_succeeded: false,
                completion: CallbackCompletion::Failed(CallbackFailure::JniDelivery),
            },
        ),
{
}

/// An event is passed over exactly where the run waits for another one, and then nothing changes.
/// Only the end of a conversion looks for a timeout.
pub proof fn law_events_that_do_not_fit_are_passed_over(
    states: CoordinationMap,
    run: CallbackRun,
    event: CallbackEvent,
)
    ensures
        ({
            let fits = match event {
                CallbackEvent::Converted { .. } => run.stage is Converting,
                CallbackEvent::Delivered { .. } => run.stage is Delivering,
                CallbackEvent::Recovered => run.stage is Recovering,
            };
            &&& next_step(states, run, event).1 is Ignore <==> !fits
            &&& !fits ==> next_step(states, run, event).0 == run.stage && states_after_step(
                states,
                run,
                event,
            ) == states
            &&& !(event is Converted) ==> states_after_step(states, run, event) == states
        }),
{
}

/// An action says what it holds.
pub proof fn law_action_shows_its_parts(action: CallbackAction)
    ensures
        action matches CallbackAction::Convert { direct_buffer, utf8 } ==> action@
            == (ActionView::Convert { direct_buffer, utf8 }),
        action matches CallbackAction::DeliverValue { detailed } ==> action@
            == (ActionView::DeliverValue { detailed }),
        action matches CallbackAction::DeliverError { code, message, detailed } ==> action@
            == (ActionView::DeliverError { code, message: message@, detailed }),
        action matches CallbackAction::Recover { delivery } ==> action@ == (ActionView::Recover {
            delivery,
        }),
        action matches CallbackAction::Finish { frame_open, command_succeeded, completion }
            ==> action@ == (ActionView::Finish { frame_open, command_succeeded, completion }),
        action is Ignore ==> action@ == ActionView::Ignore,
{
}

/// A failed delivery is described by its own name, and the sweep after it tells a failed value from
/// a failed error.
pub proof fn law_deliveries_have_their_texts()
    ensures
        Delivery::Value.stage_text() == "complete_success_callback"@,
        Delivery::ConversionError.stage_text() == "complete_conversion_error_callback"@,
        Delivery::ServerError.stage_text() == "complete_server_error_callback"@,
        Delivery::Value.sweep_text()
            == "JNI callback completion failed — cached method IDs may be stale"@,
        Delivery::ConversionError.sweep_text()
            == "JNI error callback completion failed — cached method IDs may be stale"@,
        Delivery::ServerError.sweep_text() == Delivery::ConversionError.sweep_text(),
{
}

/// A callback that no worker takes ends as timed out where a timeout was marked, and as failed
/// otherwise; its request waited from when it was queued, and reports that.
pub proof fn law_refused_callback_reports(
    states: CoordinationMap,
    callback_id: i64,
    request: ContextView,
    state: StateView,
    result: RequestMetricResult,
    queued: Moment,
    moments: FinishMoments,
)
    ensures
        refused_result(states, callback_id) == (if states.contains_pair(
            callback_id,
            crate::callback::coordination::CallbackCoordinationState::TimedOut,
        ) {
            RequestMetricResult::Timeout
        } else {
            RequestMetricResult::Failure
        }),
        refused_state(request, state, result, queued, moments)
            == crate::metrics::laws::after_events(
            request,
            state,
            seq![
                crate::metrics::laws::RequestEvent::Started {
                    phase: crate::metrics::phase::RequestMetricPhase::CallbackQueue,
                    at: queued,
                },
                crate::metrics::laws::RequestEvent::Closed {
                    id: request.started_id(),
                    at: moments.waited,
                },
                crate::metrics::laws::RequestEvent::Ended { result, at: moments.ended },
            ],
        ).1,
{
    let started = crate::metrics::laws::RequestEvent::Started {
        phase: crate::metrics::phase::RequestMetricPhase::CallbackQueue,
        at: queued,
    };
    let closed = crate::metrics::laws::RequestEvent::Closed {
        id: request.started_id(),
        at: moments.waited,
    };
    let ended = crate::metrics::laws::RequestEvent::Ended { result, at: moments.ended };
    reveal_with_fuel(crate::metrics::laws::after_events, 4);
    let all = seq![started, closed, ended];
    assert(all.drop_last() =~= seq![started, closed]);
    assert(all.drop_last().drop_last() =~= seq![started]);
    assert(all.drop_last().drop_last().drop_last() =~= seq![]);
}

/// A new job has the parts that it was given, and waits for nothing yet.
pub proof fn law_new_job_has_its_parts<P>(
    callback_id: i64,
    payload: P,
    request: Option<ContextView>,
    detailed: bool,
)
    ensures
        new_job(callback_id, payload, request, detailed).callback_id == callback_id,
        new_job(callback_id, payload, request, detailed).payload == payload,
        new_job(callback_id, payload, request, detailed).request == request,
        new_job(callback_id, payload, request, detailed).detailed_completion == detailed,
        new_job(callback_id, payload, request, detailed).callback_queue is None,
{
}

/// Where a timeout was marked while the response was converted, the frame is closed, the callback ends
/// as timed out, and the mark is used up.
pub proof fn law_timeout_during_conversion(
    states: CoordinationMap,
    run: CallbackRun,
    conversion: Result<(), String>,
)
    requires
        run.stage == CallbackStage::Converting,
    ensures
        ({
            let event = CallbackEvent::Converted { conversion };
            let timed_out = states.contains_pair(
                run.callback_id,
                crate::callback::coordination::CallbackCoordinationState::TimedOut,
            );
            &&& timed_out ==> next_step(states, run, event) == (
                CallbackStage::Done,
                ActionView::Finish {
                    frame_open: true,
                    command_succeeded: false,
                    completion: CallbackCompletion::TimedOutByMarker,
                },
            ) && states_after_step(states, run, event) == states.remove(run.callback_id)
            &&& !timed_out ==> !(next_step(states, run, event).1 is Finish) && states_after_step(
                states,
                run,
                event,
            ) == states
        }),
{
}

/// An answer ends the callback: a taken value as the success of its command, an error of the server as
/// its failure, and a failed conversion as such where its error was taken. Any other answer decides
/// itself how the callback ends.
pub proof fn law_answer_ends_the_callback(
    states: CoordinationMap,
    run: CallbackRun,
    delivery: Delivery,
    outcome: JavaCompletionOutcome,
)
    requires
        run.stage == (CallbackStage::Delivering { delivery }),
    ensures
        ({
            let (stage, action) = next_step(
                states,
                run,
                CallbackEvent::Delivered { result: Ok(outcome) },
            );
            &&& stage == CallbackStage::Done
            &&& action matches ActionView::Finish { frame_open, command_succeeded, completion } && {
                &&& frame_open <==> delivery == Delivery::Value || delivery
                    == Delivery::ConversionError
                &&& command_succeeded <==> delivery == Delivery::Value
                &&& delivery == Delivery::ConversionError && outcome
                    == JavaCompletionOutcome::Completed ==> completion == CallbackCompletion::Failed(
                    CallbackFailure::Conversion,
                )
                &&& delivery != Delivery::ConversionError || outcome
                    != JavaCompletionOutcome::Completed ==> completion == CallbackCompletion::Java(
                    outcome,
                )
            }
        }),
{
}

/// A sampled command shows its request, and any other none.
pub proof fn law_sampled_command_shows_its_request(
    request_metrics: Option<(RequestMetricContext, &mut RequestMetricsState)>,
)
    ensures
        sampled_view(request_metrics) is Some <==> request_metrics is Some,
        request_metrics matches Some((request, _)) ==> sampled_view(request_metrics) == Some(
            request@,
        ),
{
}

/// The text with which pending callbacks fail when there are no workers.
pub proof fn law_text_without_workers()
    ensures
        WORKERS_TERMINATED@
            == "Native callback workers terminated — all pending requests failed"@,
{
}

} // verus!
