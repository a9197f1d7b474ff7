//! Callback jobs, their completion and their coordination with timeouts.

use std::cell::{Cell, RefCell};
use std::collections::HashSet;

use request_metrics::callback::completion::{
    callback_coordination_finish, classify_callback_completion, CallbackCompletion,
    CallbackFailure, JavaCompletionOutcome,
};
use request_metrics::callback::coordination::{
    CallbackCoordinationFinish, CallbackCoordinationRegistry,
};
use request_metrics::callback::finish::{
    finish_callback_at, finish_callback_with_registry, FinishMoments,
};
use request_metrics::callback::job::{
    enqueue_callback_job, enqueue_callback_job_at, receive_callback_job, receive_callback_job_at,
    CallbackJob, CallbackQueue,
};
use request_metrics::callback::process::{
    complete_callback, complete_callback_with_metrics, complete_callback_with_metrics_at,
    CallbackAction, CallbackEvent, CallbackRun, CommandOutcome, Delivery, WORKERS_TERMINATED,
};
use request_metrics::metrics::clock::Moment;
use request_metrics::metrics::context::RequestMetricContext;
use request_metrics::metrics::operation::{BoundedOperation, OperationNamespaces};
use request_metrics::metrics::phase::{RequestMetricPhase, RequestMetricResult};
use request_metrics::metrics::state::RequestMetricsState;
use request_metrics::response::value::{Scalar, ServerValue};

const MILLISECOND: u128 = 1_000_000;

fn state(capacity: usize) -> RequestMetricsState {
    RequestMetricsState::new(&mut OperationNamespaces::new(), 100, capacity, &[]).unwrap()
}

fn sampled_context(state: &mut RequestMetricsState, operation: &'static str) -> RequestMetricContext {
    state
        .start(BoundedOperation::known(operation))
        .expect("100% sampling must create a context")
}

fn context_at(
    state: &mut RequestMetricsState,
    operation: &'static str,
    nanos: u128,
) -> RequestMetricContext {
    state.start_pending_preselected_at(at(nanos)).bind(BoundedOperation::known(operation))
}

fn at(nanos: u128) -> Moment {
    Moment { nanos }
}

fn all_at(nanos: u128) -> FinishMoments {
    FinishMoments { waited: at(nanos), completed: at(nanos), ended: at(nanos) }
}

#[test]
fn production_jobs_measure_queue_and_completion_across_a_controlled_barrier() {
    let mut state = state(4);
    let first_context = context_at(&mut state, "FIRST", 0);
    let second_context = context_at(&mut state, "SECOND", 0);
    let mut registry = CallbackCoordinationRegistry::default();
    let mut queue = CallbackQueue::<()>::new();
    let enqueued = 7 * MILLISECOND;

    assert!(enqueue_callback_job_at(
        &mut queue,
        CallbackJob::new(-9_000_001, (), Some(first_context), true),
        at(enqueued),
    )
    .is_ok());
    assert!(enqueue_callback_job_at(
        &mut queue,
        CallbackJob::new(-9_000_002, (), Some(second_context), true),
        at(enqueued),
    )
    .is_ok());

    let (first, first_complete) = receive_callback_job_at(&mut queue, at(enqueued)).unwrap();
    let controlled_interval = 25 * MILLISECOND;
    let released = enqueued + controlled_interval;

    let mut first_context = first.request_metrics.unwrap();
    finish_callback_at(
        &mut registry,
        first.callback_id,
        Some((&mut first_context, Some(&mut state))),
        first.callback_queue,
        first_complete,
        true,
        CallbackCompletion::Java(JavaCompletionOutcome::Completed),
        || {},
        all_at(released),
    );
    let (second, second_complete) = receive_callback_job_at(&mut queue, at(released)).unwrap();
    let mut second_context = second.request_metrics.unwrap();
    finish_callback_at(
        &mut registry,
        second.callback_id,
        Some((&mut second_context, Some(&mut state))),
        second.callback_queue,
        second_complete,
        true,
        CallbackCompletion::Java(JavaCompletionOutcome::Completed),
        || {},
        all_at(released),
    );

    let drain = state.drain(4).unwrap();
    let first_sample = drain
        .samples()
        .iter()
        .find(|sample| state.operation_bytes(sample.operation()) == b"FIRST")
        .unwrap();
    let second_sample = drain
        .samples()
        .iter()
        .find(|sample| state.operation_bytes(sample.operation()) == b"SECOND")
        .unwrap();
    assert_eq!(
        first_sample.phase_duration(RequestMetricPhase::CallbackComplete),
        controlled_interval as u64
    );
    assert_eq!(
        second_sample.phase_duration(RequestMetricPhase::CallbackQueue),
        controlled_interval as u64
    );
    assert!(second_sample.phase_duration(RequestMetricPhase::CallbackComplete) > 0);
    assert_eq!(registry.len(), 0);
}

#[test]
fn sender_failure_uses_the_production_job_and_terminal_finalizer() {
    let mut state = state(2);
    let context = context_at(&mut state, "SEND.FAILURE", 0);
    let mut registry = CallbackCoordinationRegistry::default();
    let mut queue = CallbackQueue::<()>::new();
    queue.close();

    let failed_job = enqueue_callback_job_at(
        &mut queue,
        CallbackJob::new(-9_000_003, (), Some(context), true),
        at(0),
    )
    .unwrap_err();
    let mut failed_context = failed_job.request_metrics.unwrap();
    let result = finish_callback_at(
        &mut registry,
        failed_job.callback_id,
        Some((&mut failed_context, Some(&mut state))),
        failed_job.callback_queue,
        None,
        false,
        CallbackCompletion::Failed(CallbackFailure::Channel),
        || {},
        all_at(3 * MILLISECOND),
    );

    assert_eq!(result, RequestMetricResult::Failure);
    let drain = state.drain(2).unwrap();
    assert_eq!(drain.samples().len(), 1);
    assert_eq!(
        drain.samples()[0].phase_duration(RequestMetricPhase::CallbackQueue),
        (3 * MILLISECOND) as u64
    );
    assert_eq!(registry.len(), 0);
}

#[test]
fn callback_finalizer_closes_active_phases_cleans_registry_and_emits_once() {
    let mut state = state(2);
    let mut context = sampled_context(&mut state, "GET");
    let queue = context.start_phase(RequestMetricPhase::CallbackQueue);
    let completion = Some(context.start_phase(RequestMetricPhase::CallbackComplete));
    let mut registry = CallbackCoordinationRegistry::default();

    finish_callback_with_registry(
        &mut registry,
        -9_000_004,
        Some((&mut context, Some(&mut state))),
        Some(queue),
        completion,
        false,
        CallbackCompletion::Java(JavaCompletionOutcome::Completed),
        || {},
    );
    finish_callback_with_registry(
        &mut registry,
        -9_000_004,
        Some((&mut context, Some(&mut state))),
        None,
        None,
        true,
        CallbackCompletion::Java(JavaCompletionOutcome::Completed),
        || {},
    );

    let drain = state.drain(2).unwrap();
    assert_eq!(drain.samples().len(), 1);
    assert_eq!(drain.samples()[0].result(), RequestMetricResult::Failure);
    assert!(drain.samples()[0].phase_duration(RequestMetricPhase::CallbackQueue) > 0);
    assert!(drain.samples()[0].phase_duration(RequestMetricPhase::CallbackComplete) > 0);
    assert!(drain.samples()[0].phase_duration(RequestMetricPhase::Total) > 0);
    assert_eq!(registry.len(), 0);
}

#[test]
fn java_and_delivery_outcomes_follow_the_terminal_contract() {
    let mut registry = CallbackCoordinationRegistry::default();
    let cases = [
        (
            true,
            CallbackCompletion::Java(JavaCompletionOutcome::Completed),
            RequestMetricResult::Success,
        ),
        (
            false,
            CallbackCompletion::Java(JavaCompletionOutcome::Completed),
            RequestMetricResult::Failure,
        ),
        (
            true,
            CallbackCompletion::Java(JavaCompletionOutcome::TimeoutMarkMissed),
            RequestMetricResult::Timeout,
        ),
        (
            false,
            CallbackCompletion::Java(JavaCompletionOutcome::NativeTimeout),
            RequestMetricResult::Timeout,
        ),
        (
            true,
            CallbackCompletion::Java(JavaCompletionOutcome::Cancelled),
            RequestMetricResult::Cancelled,
        ),
        (
            true,
            CallbackCompletion::Java(JavaCompletionOutcome::Failure),
            RequestMetricResult::Failure,
        ),
        (
            true,
            CallbackCompletion::Failed(CallbackFailure::Conversion),
            RequestMetricResult::Failure,
        ),
        (
            true,
            CallbackCompletion::Failed(CallbackFailure::JniDelivery),
            RequestMetricResult::Failure,
        ),
        (true, CallbackCompletion::TimedOutByMarker, RequestMetricResult::Timeout),
    ];

    for (offset, (redis_succeeded, completion, expected)) in cases.into_iter().enumerate() {
        let callback_id = -9_001_000 - offset as i64;
        assert_eq!(
            finish_callback_with_registry(
                &mut registry,
                callback_id,
                None,
                None,
                None,
                redis_succeeded,
                completion,
                || {},
            ),
            expected
        );
    }
    assert_eq!(registry.len(), 0);
    assert!(JavaCompletionOutcome::try_from(99).is_err());
}

#[test]
fn timeout_only_coordination_covers_all_mark_and_completion_orders() {
    let mut registry = CallbackCoordinationRegistry::default();
    let in_flight = RefCell::new(HashSet::new());

    in_flight.borrow_mut().insert(-9_000_005);
    assert!(registry.mark_timed_out(-9_000_005, || in_flight.borrow().contains(&-9_000_005)));
    assert!(registry.take_timed_out(-9_000_005));
    assert!(!registry.finish(-9_000_005, CallbackCoordinationFinish::Skip, || {
        in_flight.borrow_mut().remove(&-9_000_005);
    }));

    in_flight.borrow_mut().insert(-9_000_006);
    assert!(registry.mark_timed_out(-9_000_006, || in_flight.borrow().contains(&-9_000_006)));
    assert!(registry.finish(-9_000_006, CallbackCoordinationFinish::CheckForTimeout, || {
        in_flight.borrow_mut().remove(&-9_000_006);
    }));

    in_flight.borrow_mut().insert(-9_000_007);
    assert!(!registry.finish(-9_000_007, CallbackCoordinationFinish::AwaitTimeoutMark, || {
        in_flight.borrow_mut().remove(&-9_000_007);
    }));
    assert_eq!(registry.len(), 1);
    assert!(registry.mark_timed_out(-9_000_007, || false));

    assert!(!registry.mark_timed_out(-9_000_010, || false));
    assert!(!registry.finish(-9_000_010, CallbackCoordinationFinish::Skip, || {}));

    in_flight.borrow_mut().insert(-9_000_011);
    assert!(!registry.finish(-9_000_011, CallbackCoordinationFinish::Skip, || {
        in_flight.borrow_mut().remove(&-9_000_011);
    }));
    assert!(!registry.mark_timed_out(-9_000_011, || in_flight.borrow().contains(&-9_000_011)));
    assert_eq!(registry.len(), 0);
}

#[test]
fn owned_timeout_overrides_java_state_cleanup_and_does_not_poison_reused_id() {
    let mut registry = CallbackCoordinationRegistry::default();
    let callback_id = -9_000_012;

    assert!(registry.mark_timed_out(callback_id, || true));
    assert_eq!(
        finish_callback_with_registry(
            &mut registry,
            callback_id,
            None,
            None,
            None,
            true,
            CallbackCompletion::Java(JavaCompletionOutcome::Failure),
            || {},
        ),
        RequestMetricResult::Timeout
    );
    assert_eq!(registry.len(), 0);

    assert_eq!(
        finish_callback_with_registry(
            &mut registry,
            callback_id,
            None,
            None,
            None,
            true,
            CallbackCompletion::Java(JavaCompletionOutcome::Completed),
            || {},
        ),
        RequestMetricResult::Success
    );
    assert_eq!(registry.len(), 0);
}

#[test]
fn unsampled_production_job_constructs_no_timers_and_cleans_coordination() {
    let mut registry = CallbackCoordinationRegistry::default();
    let mut queue = CallbackQueue::<()>::new();
    assert!(
        enqueue_callback_job(&mut queue, CallbackJob::new(-9_000_008, (), None, false)).is_ok()
    );

    let (job, callback_complete) = receive_callback_job(&mut queue).unwrap();

    assert!(job.request_metrics.is_none());
    assert!(job.callback_queue.is_none());
    assert!(callback_complete.is_none());
    finish_callback_with_registry(
        &mut registry,
        job.callback_id,
        None,
        None,
        None,
        true,
        CallbackCompletion::Java(JavaCompletionOutcome::Completed),
        || {},
    );
    assert_eq!(registry.len(), 0);
}

#[test]
fn callback_job_retains_selection_without_relying_on_native_context() {
    let mut queue = CallbackQueue::<()>::new();
    assert!(
        enqueue_callback_job(&mut queue, CallbackJob::new(-9_000_009, (), None, false)).is_ok()
    );
    assert!(
        enqueue_callback_job(&mut queue, CallbackJob::new(-9_000_010, (), None, true)).is_ok()
    );

    let (legacy, _) = receive_callback_job(&mut queue).unwrap();
    let (detailed, _) = receive_callback_job(&mut queue).unwrap();

    assert!(!legacy.detailed_completion);
    assert!(detailed.detailed_completion);
    assert!(legacy.request_metrics.is_none());
    assert!(detailed.request_metrics.is_none());
}

#[test]
fn outcome_numbers_are_read_and_unknown_ones_are_named() {
    let outcomes = [
        JavaCompletionOutcome::Completed,
        JavaCompletionOutcome::Timeout,
        JavaCompletionOutcome::Cancelled,
        JavaCompletionOutcome::Failure,
        JavaCompletionOutcome::TimeoutMarkMissed,
        JavaCompletionOutcome::NativeTimeout,
    ];
    for (number, outcome) in outcomes.into_iter().enumerate() {
        assert_eq!(JavaCompletionOutcome::try_from(number as i32), Ok(outcome));
    }
    assert_eq!(
        JavaCompletionOutcome::try_from(-7).unwrap_err().message(),
        "Unknown Java callback completion outcome: -7"
    );
    assert_eq!(
        JavaCompletionOutcome::try_from(i32::MIN).unwrap_err().message(),
        "Unknown Java callback completion outcome: -2147483648"
    );
}

#[test]
fn only_success_on_both_sides_counts_as_success() {
    let completions = [
        CallbackCompletion::Java(JavaCompletionOutcome::Completed),
        CallbackCompletion::Java(JavaCompletionOutcome::Timeout),
        CallbackCompletion::Java(JavaCompletionOutcome::Cancelled),
        CallbackCompletion::Java(JavaCompletionOutcome::Failure),
        CallbackCompletion::TimedOutByMarker,
        CallbackCompletion::Failed(CallbackFailure::Channel),
    ];
    for (place, completion) in completions.into_iter().enumerate() {
        let succeeded =
            classify_callback_completion(true, completion) == RequestMetricResult::Success;
        assert_eq!(succeeded, place == 0);
        assert_ne!(classify_callback_completion(false, completion), RequestMetricResult::Success);
    }
    assert_eq!(
        callback_coordination_finish(CallbackCompletion::Java(JavaCompletionOutcome::Timeout)),
        CallbackCoordinationFinish::AwaitTimeoutMark
    );
    assert_eq!(
        callback_coordination_finish(CallbackCompletion::Failed(CallbackFailure::Channel)),
        CallbackCoordinationFinish::CheckForTimeout
    );
    assert_eq!(
        callback_coordination_finish(CallbackCompletion::TimedOutByMarker),
        CallbackCoordinationFinish::Skip
    );
}

#[test]
fn callbacks_do_not_disturb_each_other() {
    let mut registry = CallbackCoordinationRegistry::default();
    assert!(registry.mark_timed_out(1, || true));
    assert!(!registry.finish(2, CallbackCoordinationFinish::CheckForTimeout, || {}));
    assert!(!registry.take_timed_out(2));
    assert!(registry.mark_timed_out(1, || false));
    assert!(registry.take_timed_out(1));
    assert!(!registry.take_timed_out(1));
    assert_eq!(registry.len(), 0);
}

#[test]
fn jobs_leave_the_queue_in_the_order_in_which_they_came() {
    let mut queue = CallbackQueue::<u8>::new();
    for number in 0..3u8 {
        assert!(enqueue_callback_job(
            &mut queue,
            CallbackJob::new(number as i64, number, None, false)
        )
        .is_ok());
    }
    assert_eq!(queue.len(), 3);
    for number in 0..3u8 {
        let (job, _) = receive_callback_job(&mut queue).unwrap();
        assert_eq!((job.callback_id, job.payload), (number as i64, number));
    }
    assert!(receive_callback_job(&mut queue).is_none());
    queue.close();
    assert!(!queue.is_open());
    let refused =
        enqueue_callback_job(&mut queue, CallbackJob::new(9, 9, None, true)).unwrap_err();
    assert_eq!((refused.callback_id, refused.payload), (9, 9));
}

#[test]
fn a_wait_in_the_queue_is_measured_with_the_real_clock() {
    let mut state = state(1);
    let context = sampled_context(&mut state, "GET");
    let mut queue = CallbackQueue::<()>::new();
    assert!(enqueue_callback_job(&mut queue, CallbackJob::new(5, (), Some(context), true)).is_ok());
    let (job, timer) = receive_callback_job(&mut queue).unwrap();
    assert!(job.callback_queue.is_none());
    assert!(timer.is_some());
    let mut context = job.request_metrics.unwrap();
    context.finish(&mut state, RequestMetricResult::Cancelled);
    let drain = state.drain(1).unwrap();
    assert!(drain.samples()[0].phase_duration(RequestMetricPhase::CallbackQueue) > 0);
    assert!(drain.samples()[0].phase_duration(RequestMetricPhase::CallbackComplete) > 0);
}

#[test]
fn commands_are_handed_to_the_workers_while_there_are_any() {
    let mut state = state(2);
    let mut registry = CallbackCoordinationRegistry::default();
    let mut queue = CallbackQueue::<&'static str>::new();
    let released = Cell::new(0);
    let context = sampled_context(&mut state, "GET");
    let sweep = complete_callback_with_metrics(
        &mut queue,
        &mut registry,
        11,
        "first",
        Some((context, &mut state)),
        true,
        || released.set(released.get() + 1),
    );
    assert_eq!(sweep, None);
    assert_eq!(released.get(), 0);
    assert_eq!(complete_callback(&mut queue, &mut registry, 12, "second", || {}), None);
    assert_eq!(queue.len(), 2);

    let (job, _) = receive_callback_job(&mut queue).unwrap();
    assert_eq!((job.callback_id, job.payload, job.detailed_completion), (11, "first", true));

    queue.close();
    assert!(registry.mark_timed_out(13, || true));
    let context = sampled_context(&mut state, "SET");
    let sweep = complete_callback_with_metrics(
        &mut queue,
        &mut registry,
        13,
        "third",
        Some((context, &mut state)),
        true,
        || released.set(released.get() + 1),
    );
    assert_eq!(sweep, Some(WORKERS_TERMINATED));
    assert_eq!(released.get(), 1);
    assert_eq!(registry.len(), 0);
    let drain = state.drain(2).unwrap();
    assert_eq!(drain.samples().len(), 1);
    assert_eq!(drain.samples()[0].result(), RequestMetricResult::Timeout);
    assert!(drain.samples()[0].phase_duration(RequestMetricPhase::CallbackQueue) > 0);

    let sweep = complete_callback(&mut queue, &mut registry, 14, "fourth", || {
        released.set(released.get() + 1)
    });
    assert_eq!(
        sweep,
        Some("Native callback workers terminated — all pending requests failed")
    );
    assert_eq!(released.get(), 2);
}

fn small() -> ServerValue {
    ServerValue::Scalar(Scalar::Okay)
}

fn begin(
    registry: &mut CallbackCoordinationRegistry,
    outcome: CommandOutcome,
) -> (CallbackRun, CallbackAction) {
    CallbackRun::start(registry, 21, true, false, outcome)
}

#[test]
fn a_value_is_converted_delivered_and_finished() {
    let mut registry = CallbackCoordinationRegistry::default();
    let large = ServerValue::Scalar(Scalar::BulkString(vec![0; 16 * 1024 + 1]));
    let (mut run, action) = begin(&mut registry, CommandOutcome::Value { value: large });
    assert!(matches!(action, CallbackAction::Convert { direct_buffer: true, utf8: true }));
    let action = run.step(&mut registry, CallbackEvent::Converted { conversion: Ok(()) });
    assert!(matches!(action, CallbackAction::DeliverValue { detailed: true }));
    let action = run.step(
        &mut registry,
        CallbackEvent::Delivered { result: Ok(JavaCompletionOutcome::Completed) },
    );
    assert!(matches!(
        action,
        CallbackAction::Finish {
            frame_open: true,
            command_succeeded: true,
            completion: CallbackCompletion::Java(JavaCompletionOutcome::Completed),
        }
    ));
    assert!(matches!(
        run.step(&mut registry, CallbackEvent::Recovered),
        CallbackAction::Ignore
    ));
}

#[test]
fn a_failed_conversion_is_delivered_as_an_error() {
    let mut registry = CallbackCoordinationRegistry::default();
    let (mut run, action) = begin(&mut registry, CommandOutcome::Value { value: small() });
    assert!(matches!(action, CallbackAction::Convert { direct_buffer: false, utf8: true }));
    let action = run.step(
        &mut registry,
        CallbackEvent::Converted { conversion: Err("bad bytes".to_string()) },
    );
    match action {
        CallbackAction::DeliverError { code, message, detailed } => {
            assert_eq!(code, 0);
            assert_eq!(message, "Response conversion failed: bad bytes");
            assert!(detailed);
        }
        _ => panic!("the error must be delivered"),
    }
    let action = run.step(
        &mut registry,
        CallbackEvent::Delivered { result: Ok(JavaCompletionOutcome::Completed) },
    );
    assert!(matches!(
        action,
        CallbackAction::Finish {
            frame_open: true,
            command_succeeded: false,
            completion: CallbackCompletion::Failed(CallbackFailure::Conversion),
        }
    ));
}

#[test]
fn a_failed_delivery_is_recovered_from() {
    let mut registry = CallbackCoordinationRegistry::default();
    let (mut run, action) = begin(
        &mut registry,
        CommandOutcome::ServerError { code: 3, message: "WRONGTYPE".to_string() },
    );
    match action {
        CallbackAction::DeliverError { code, message, detailed } => {
            assert_eq!((code, message.as_str(), detailed), (3, "WRONGTYPE", true));
        }
        _ => panic!("the error must be delivered"),
    }
    let action = run.step(&mut registry, CallbackEvent::Delivered { result: Err(()) });
    match action {
        CallbackAction::Recover { delivery } => {
            assert_eq!(delivery, Delivery::ServerError);
            assert_eq!(delivery.stage_name(), "complete_server_error_callback");
            assert_eq!(
                delivery.sweep_message(),
                "JNI error callback completion failed — cached method IDs may be stale"
            );
        }
        _ => panic!("the delivery must be recovered from"),
    }
    assert!(matches!(
        run.step(&mut registry, CallbackEvent::Recovered),
        CallbackAction::Finish {
            frame_open: false,
            command_succeeded: false,
            completion: CallbackCompletion::Failed(CallbackFailure::JniDelivery),
        }
    ));
    assert_eq!(Delivery::Value.stage_name(), "complete_success_callback");
    assert_eq!(Delivery::ConversionError.stage_name(), "complete_conversion_error_callback");
    assert_eq!(
        Delivery::Value.sweep_message(),
        "JNI callback completion failed — cached method IDs may be stale"
    );
}

#[test]
fn a_timeout_that_is_marked_in_time_wins() {
    let mut registry = CallbackCoordinationRegistry::default();
    assert!(registry.mark_timed_out(21, || true));
    let (_, action) = begin(&mut registry, CommandOutcome::Value { value: small() });
    assert!(matches!(
        action,
        CallbackAction::Finish {
            frame_open: false,
            command_succeeded: false,
            completion: CallbackCompletion::TimedOutByMarker,
        }
    ));
    assert_eq!(registry.len(), 0);

    let (mut run, _) = begin(&mut registry, CommandOutcome::Value { value: small() });
    assert!(registry.mark_timed_out(21, || true));
    assert!(matches!(
        run.step(&mut registry, CallbackEvent::Converted { conversion: Ok(()) }),
        CallbackAction::Finish {
            frame_open: true,
            command_succeeded: false,
            completion: CallbackCompletion::TimedOutByMarker,
        }
    ));
    assert_eq!(registry.len(), 0);
}

#[test]
fn a_refused_callback_ends_at_the_given_moments() {
    let mut state = state(1);
    let mut registry = CallbackCoordinationRegistry::default();
    let mut queue = CallbackQueue::<()>::new();
    queue.close();
    let context = context_at(&mut state, "GET", 0);
    let sweep = complete_callback_with_metrics_at(
        &mut queue,
        &mut registry,
        31,
        (),
        Some((context, &mut state)),
        true,
        || {},
        at(10),
        FinishMoments { waited: at(14), completed: at(15), ended: at(20) },
    );
    assert_eq!(sweep, Some(WORKERS_TERMINATED));
    let drain = state.drain(1).unwrap();
    let sample = &drain.samples()[0];
    assert_eq!(sample.result(), RequestMetricResult::Failure);
    assert_eq!(sample.phase_duration(RequestMetricPhase::CallbackQueue), 4);
    assert_eq!(sample.phase_duration(RequestMetricPhase::CallbackComplete), 0);
    assert_eq!(sample.phase_duration(RequestMetricPhase::Total), 20);
}

#[test]
fn requests_move_in_and_out_of_waiting_jobs() {
    let mut state = state(1);
    let mut queue = CallbackQueue::<u8>::new();
    assert!(queue.take_last().is_none());
    let back = queue.exchange_first(Some(context_at(&mut state, "GET", 0)));
    assert!(back.is_some());
    for number in 0..2u8 {
        let request = context_at(&mut state, "GET", 0);
        assert!(enqueue_callback_job_at(
            &mut queue,
            CallbackJob::new(number as i64, number, Some(request), true),
            at(1),
        )
        .is_ok());
    }
    assert_eq!(queue.first().unwrap().payload, 0);
    assert!(queue.take_last().is_some());
    assert!(queue.take_last().is_none());
    assert!(queue.exchange_first(None).is_some());
    assert!(queue.exchange_first(back).is_none());
    let (first, timer) = receive_callback_job_at(&mut queue, at(5)).unwrap();
    assert_eq!(first.payload, 0);
    assert!(timer.is_some() && first.request_metrics.is_some());
    let (second, timer) = receive_callback_job_at(&mut queue, at(6)).unwrap();
    assert_eq!(second.payload, 1);
    assert!(timer.is_none() && second.request_metrics.is_none());
}

#[test]
fn timers_are_closed_though_their_request_stays_open() {
    let mut registry = CallbackCoordinationRegistry::default();
    let mut state = state(1);
    let mut context = context_at(&mut state, "GET", 0);
    let queued = context.start_phase_at(RequestMetricPhase::CallbackQueue, at(10));
    let completing = context.start_phase_at(RequestMetricPhase::CallbackComplete, at(20));
    let result = finish_callback_at(
        &mut registry,
        3,
        Some((&mut context, None)),
        Some(queued),
        Some(completing),
        true,
        CallbackCompletion::Java(JavaCompletionOutcome::Completed),
        || {},
        FinishMoments { waited: at(15), completed: at(27), ended: at(90) },
    );
    assert_eq!(result, RequestMetricResult::Success);
    assert!(!queued.finish_at(&mut context, at(100)));
    assert!(!completing.finish_at(&mut context, at(100)));
    assert!(context.finish_at(&mut state, RequestMetricResult::Failure, at(100)));
    let drain = state.drain(1).unwrap();
    let sample = &drain.samples()[0];
    assert_eq!(sample.result(), RequestMetricResult::Failure);
    assert_eq!(sample.phase_duration(RequestMetricPhase::CallbackQueue), 5);
    assert_eq!(sample.phase_duration(RequestMetricPhase::CallbackComplete), 7);
    assert_eq!(sample.phase_duration(RequestMetricPhase::Total), 100);

    let mut state = self::state(1);
    let mut context = sampled_context(&mut state, "GET");
    let queued = context.start_phase(RequestMetricPhase::CallbackQueue);
    finish_callback_with_registry(
        &mut registry,
        3,
        Some((&mut context, None)),
        Some(queued),
        None,
        true,
        CallbackCompletion::Java(JavaCompletionOutcome::Completed),
        || {},
    );
    assert!(!queued.finish(&mut context));
    assert!(context.finish(&mut state, RequestMetricResult::Success));
}

#[test]
fn a_queued_command_stays_in_flight() {
    let mut registry = CallbackCoordinationRegistry::default();
    let mut queue = CallbackQueue::new();
    let mut state = state(1);
    let sweep = complete_callback(&mut queue, &mut registry, 1, "value", || {
        panic!("a queued command is in flight")
    });
    assert_eq!(sweep, None);
    let request = sampled_context(&mut state, "GET");
    let sweep = complete_callback_with_metrics(
        &mut queue,
        &mut registry,
        2,
        "value",
        Some((request, &mut state)),
        true,
        || panic!("a queued command is in flight"),
    );
    assert_eq!(sweep, None);
    assert_eq!(queue.len(), 2);

    queue.close();
    let mut released = 0;
    let sweep = complete_callback(&mut queue, &mut registry, 3, "value", || released += 1);
    assert_eq!(sweep, Some(WORKERS_TERMINATED));
    assert_eq!(released, 1);
}

#[test]
fn jobs_are_paired_with_their_timers() {
    let mut state = state(1);
    let mut job = CallbackJob::new(1, (), Some(context_at(&mut state, "GET", 0)), true);
    assert!(job.is_paired());
    job.begin_wait_at(at(5));
    assert!(job.is_paired());
    let lent = job.request_metrics.take();
    assert!(!job.is_paired());
    job.request_metrics = Some(context_at(&mut state, "GET", 0));
    assert!(!job.is_paired());
    job.request_metrics = lent;
    assert!(job.is_paired());
    assert!(CallbackJob::new(2, (), None, false).is_paired());
}
