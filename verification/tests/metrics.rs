//! Sampling, request lifecycles, the buffer and the configuration.

use std::collections::VecDeque;
use std::time::Duration;

use request_metrics::metrics::allow_list::{validate_configuration, validate_sample_percentage};
use request_metrics::metrics::clock::{measure_interval, Clock, Moment};
use request_metrics::metrics::context::RequestMetricContext;
use request_metrics::metrics::counters::{
    buffered_count_after_decrement, buffered_count_snapshot, decrement_buffered,
    increment_buffered, saturating_add_u32, saturating_add_u64,
};
use request_metrics::metrics::errors::{
    RequestMetricsConfigurationError, RequestMetricsDrainError,
};
use request_metrics::metrics::global::{
    configure_request_metrics, request_metrics_state, set_request_metrics_sample_percentage,
    GlobalRequestMetrics,
};
use request_metrics::metrics::operation::{
    BoundedOperation, BoundedOperationKind, OperationNamespaces, CUSTOM_COMMAND,
};
use request_metrics::metrics::phase::{
    RequestMetricPhase, RequestMetricResult, REQUEST_METRIC_PHASE_COUNT,
};
use request_metrics::metrics::state::{selects, RequestMetricsState, Sampler, ThreadLocalSampler};

struct SequenceSampler {
    values: VecDeque<u32>,
    calls: usize,
}

impl SequenceSampler {
    fn new(values: impl IntoIterator<Item = u32>) -> Self {
        Self { values: values.into_iter().collect(), calls: 0 }
    }
}

impl Sampler for SequenceSampler {
    fn sample_percentile(&mut self) -> u32 {
        self.calls += 1;
        self.values.pop_front().expect("unexpected sampler call")
    }
}

fn state(
    percentage: u32,
    capacity: usize,
    allowed_custom_commands: &[&[u8]],
) -> RequestMetricsState {
    RequestMetricsState::new(
        &mut OperationNamespaces::new(),
        percentage,
        capacity,
        allowed_custom_commands,
    )
    .expect("valid test configuration")
}

fn refusal(
    percentage: u32,
    capacity: usize,
    allowed_custom_commands: &[&[u8]],
) -> Option<RequestMetricsConfigurationError> {
    RequestMetricsState::new(
        &mut OperationNamespaces::new(),
        percentage,
        capacity,
        allowed_custom_commands,
    )
    .err()
}

fn finish_one(state: &mut RequestMetricsState, result: RequestMetricResult) {
    let mut context = state
        .start_with_sampler(BoundedOperation::known("GET"), &mut SequenceSampler::new([]))
        .expect("100% sampling must create a context");
    assert!(context.finish(state, result));
}

fn request_at(state: &mut RequestMetricsState, nanos: u128) -> RequestMetricContext {
    state.start_pending_preselected_at(Moment { nanos }).bind(BoundedOperation::known("GET"))
}

#[test]
fn published_but_uncounted_sample_transitions_to_non_waiting_debt() {
    let mut buffered = buffered_count_after_decrement(0);
    assert_eq!(buffered, usize::MAX);
    assert_eq!(buffered_count_snapshot(buffered), 0);
    increment_buffered(&mut buffered);
    assert_eq!(buffered_count_snapshot(buffered), 0);
}

#[test]
fn zero_percent_returns_none_without_consulting_the_sampler() {
    let mut state = state(0, 1, &[]);
    let mut sampler = SequenceSampler::new([]);

    assert!(state
        .start_with_sampler(BoundedOperation::known("GET"), &mut sampler)
        .is_none());
    assert!(state.start(BoundedOperation::known("GET")).is_none());
    assert_eq!(sampler.calls, 0);
}

#[test]
fn one_hundred_percent_returns_a_context_without_consulting_the_sampler() {
    let mut state = state(100, 1, &[]);
    let mut sampler = SequenceSampler::new([]);

    assert!(state
        .start_with_sampler(BoundedOperation::known("GET"), &mut sampler)
        .is_some());
    assert!(state.start(BoundedOperation::known("GET")).is_some());
    assert_eq!(sampler.calls, 0);
}

#[test]
fn ten_percent_sampling_uses_injected_percentiles_deterministically() {
    let mut state = state(10, 4, &[]);
    let mut sampler = SequenceSampler::new([0, 9, 10, 99]);

    let decisions = (0..4)
        .map(|_| {
            state
                .start_with_sampler(BoundedOperation::known("GET"), &mut sampler)
                .is_some()
        })
        .collect::<Vec<_>>();

    assert_eq!(decisions, [true, true, false, false]);
    assert_eq!(sampler.calls, 4);
}

#[test]
fn phase_values_use_fixed_order_and_accumulate_with_saturation() {
    let mut state = state(100, 1, &[]);
    let mut context = state
        .start_with_sampler(BoundedOperation::known("GET"), &mut SequenceSampler::new([]))
        .unwrap();
    let phases = [
        RequestMetricPhase::JniIngress,
        RequestMetricPhase::ClientQueue,
        RequestMetricPhase::CommandPrepare,
        RequestMetricPhase::ConnectionWait,
        RequestMetricPhase::PipelineQueue,
        RequestMetricPhase::SocketWrite,
        RequestMetricPhase::ResponseWait,
        RequestMetricPhase::RetryBackoff,
        RequestMetricPhase::CoreDecode,
        RequestMetricPhase::CallbackQueue,
        RequestMetricPhase::CallbackComplete,
    ];

    for (index, phase) in phases.into_iter().enumerate() {
        context.record_phase_duration(phase, Duration::from_nanos(index as u64 + 1));
    }
    context.record_phase_duration(RequestMetricPhase::ClientQueue, Duration::from_nanos(5));
    context.record_phase_duration(RequestMetricPhase::CoreDecode, Duration::MAX);
    context.record_phase_duration(RequestMetricPhase::CoreDecode, Duration::from_nanos(1));
    context.add_attempts(u32::MAX);
    context.increment_attempt_count();
    assert!(context.finish(&mut state, RequestMetricResult::Success));

    let drain = state.drain(1).unwrap();
    let sample = &drain.samples()[0];
    assert_eq!(sample.phase_durations().len(), REQUEST_METRIC_PHASE_COUNT);
    assert_eq!(state.operation_bytes(sample.operation()), b"GET");
    assert_eq!(sample.phase_duration(RequestMetricPhase::JniIngress), 1);
    assert_eq!(sample.phase_duration(RequestMetricPhase::ClientQueue), 7);
    assert_eq!(sample.phase_duration(RequestMetricPhase::CoreDecode), u64::MAX);
    assert!(sample.phase_duration(RequestMetricPhase::Total) > 0);
    assert_eq!(sample.attempt_count(), u32::MAX);

    let populated = sample.populated_phase_durations();
    assert_eq!(populated.len(), REQUEST_METRIC_PHASE_COUNT);
    for pair in populated.windows(2) {
        assert!(pair[0].0.code() < pair[1].0.code());
    }
}

#[test]
fn cloned_phase_timer_records_exactly_once() {
    let mut state = state(100, 1, &[]);
    let mut context = state
        .start_with_sampler(BoundedOperation::known("GET"), &mut SequenceSampler::new([]))
        .unwrap();
    let timer = context.start_phase(RequestMetricPhase::ClientQueue);
    let timer_clone = timer.clone();

    drop(timer);
    assert!(timer_clone.finish(&mut context));
    assert!(!timer_clone.finish(&mut context));
    assert!(context.finish(&mut state, RequestMetricResult::Success));

    let drain = state.drain(1).unwrap();
    let sample = &drain.samples()[0];
    assert!(sample.phase_duration(RequestMetricPhase::ClientQueue) > 0);
}

#[test]
fn finish_is_exactly_once_and_preserves_each_terminal_result() {
    let mut state = state(100, 4, &[]);
    let expected = [
        RequestMetricResult::Success,
        RequestMetricResult::Failure,
        RequestMetricResult::Timeout,
        RequestMetricResult::Cancelled,
    ];

    for result in expected {
        let mut context = state
            .start_with_sampler(BoundedOperation::known("GET"), &mut SequenceSampler::new([]))
            .unwrap();
        assert!(context.finish(&mut state, result));
        assert!(!context.finish(&mut state, RequestMetricResult::Failure));
    }

    let drain = state.drain(4).unwrap();
    assert_eq!(
        drain.samples().iter().map(|sample| sample.result()).collect::<Vec<_>>(),
        expected
    );
}

#[test]
fn full_capacity_drops_the_next_completed_sample() {
    let mut state = state(100, 1, &[]);

    finish_one(&mut state, RequestMetricResult::Success);
    finish_one(&mut state, RequestMetricResult::Failure);

    let drain = state.drain(1).unwrap();
    assert_eq!(drain.samples().len(), 1);
    assert_eq!(drain.samples()[0].result(), RequestMetricResult::Success);
    assert_eq!(drain.dropped_samples(), 1);
    assert_eq!(drain.remaining_samples(), 0);
    assert!(!drain.has_more());
}

#[test]
fn drain_respects_limit_and_resets_only_the_reported_drop_count() {
    let mut state = state(100, 3, &[]);
    for _ in 0..4 {
        finish_one(&mut state, RequestMetricResult::Success);
    }

    let first = state.drain(2).unwrap();
    assert_eq!(first.samples().len(), 2);
    assert_eq!(first.dropped_samples(), 1);
    assert_eq!(first.remaining_samples(), 1);
    assert!(first.has_more());

    finish_one(&mut state, RequestMetricResult::Timeout);
    finish_one(&mut state, RequestMetricResult::Cancelled);
    finish_one(&mut state, RequestMetricResult::Failure);

    let second = state.drain(1).unwrap();
    assert_eq!(second.samples().len(), 1);
    assert_eq!(second.dropped_samples(), 1);
    assert_eq!(second.remaining_samples(), 2);
    assert!(second.has_more());

    let third = state.drain(10).unwrap();
    assert_eq!(third.samples().len(), 2);
    assert_eq!(third.dropped_samples(), 0);
    assert_eq!(third.remaining_samples(), 0);
    assert!(!third.has_more());
}

#[test]
fn custom_command_configuration_is_validated_as_uppercase_ascii() {
    assert!(matches!(
        refusal(101, 1, &[]),
        Some(RequestMetricsConfigurationError::InvalidSamplePercentage { .. })
    ));
    assert!(matches!(
        refusal(10, 0, &[]),
        Some(RequestMetricsConfigurationError::InvalidCapacity { .. })
    ));
    assert!(matches!(
        refusal(10, 1_000_001, &[]),
        Some(RequestMetricsConfigurationError::InvalidCapacity { .. })
    ));

    for invalid in [
        b"".as_slice(),
        b"graph.query".as_slice(),
        b"GRAPH QUERY".as_slice(),
        b"GRAPH/QUERY".as_slice(),
        &[b'A'; 65],
        &[0xff],
    ] {
        assert!(matches!(
            refusal(10, 1, &[invalid]),
            Some(RequestMetricsConfigurationError::InvalidAllowedCustomCommand { .. })
        ));
    }

    let too_many = vec![b"GRAPH.QUERY".as_slice(); 65];
    assert!(matches!(
        refusal(10, 1, &too_many),
        Some(RequestMetricsConfigurationError::TooManyAllowedCustomCommands { .. })
    ));
}

#[test]
fn custom_commands_use_allow_listed_identity_or_static_fallback_without_utf8() {
    let state = state(100, 1, &[b"GRAPH.QUERY"]);

    let allowed = state.custom_operation(b"GRAPH.QUERY");
    let unknown = state.custom_operation(b"FT.SEARCH");
    let invalid_utf8 = state.custom_operation(&[0xff, 0xfe]);

    assert_eq!(state.operation_bytes(allowed), b"GRAPH.QUERY");
    assert_eq!(state.operation_bytes(unknown), CUSTOM_COMMAND.as_bytes());
    assert_eq!(state.operation_bytes(invalid_utf8), CUSTOM_COMMAND.as_bytes());
}

#[test]
fn custom_operation_cannot_be_relabelled_by_another_state() {
    let mut namespaces = OperationNamespaces::new();
    let first = RequestMetricsState::new(&mut namespaces, 100, 1, &[b"GRAPH.QUERY"]).unwrap();
    let mut second = RequestMetricsState::new(&mut namespaces, 100, 1, &[b"FT.SEARCH"]).unwrap();
    let first_operation = first.custom_operation(b"GRAPH.QUERY");

    let mut context = second
        .start_with_sampler(first_operation, &mut SequenceSampler::new([]))
        .unwrap();
    assert!(context.finish(&mut second, RequestMetricResult::Success));
    let drain = second.drain(1).unwrap();

    assert_eq!(
        second.operation_bytes(drain.samples()[0].operation()),
        CUSTOM_COMMAND.as_bytes()
    );
    assert_eq!(first.operation_bytes(first_operation), b"GRAPH.QUERY");
}

#[test]
fn thread_local_percentiles_stay_in_range_and_vary() {
    let mut sampler = ThreadLocalSampler;
    let drawn = (0..2_000).map(|_| sampler.sample_percentile()).collect::<Vec<_>>();
    assert!(drawn.iter().all(|percentile| *percentile < 100));
    assert!(drawn.iter().any(|percentile| *percentile != drawn[0]));

    let mut state = state(50, 1, &[]);
    let started = (0..2_000)
        .filter(|_| state.start(BoundedOperation::known("GET")).is_some())
        .count();
    assert!(started > 0 && started < 2_000);
    let pending = (0..2_000).filter(|_| state.start_pending().is_some()).count();
    assert!(pending > 0 && pending < 2_000);
}

#[test]
fn as_many_percentiles_are_selected_as_the_percentage_says() {
    for percentage in 0..=100 {
        let selected = (0..100).filter(|percentile| selects(percentage, *percentile)).count();
        assert_eq!(selected, percentage as usize);
    }
    assert!(selects(10, 9));
    assert!(!selects(10, 10));
    assert!(selects(11, 10));
}

#[test]
fn preselected_request_is_started_at_any_percentage() {
    let mut state = state(0, 1, &[]);
    let mut sampler = SequenceSampler::new([]);
    assert!(state.start_pending_with_sampler(&mut sampler).is_none());
    let mut context = state
        .start_pending_preselected()
        .bind_and_record_phase(BoundedOperation::known("GET"), RequestMetricPhase::JniIngress);
    assert!(context.finish(&mut state, RequestMetricResult::Success));
    let drain = state.drain(1).unwrap();
    assert!(drain.samples()[0].phase_duration(RequestMetricPhase::JniIngress) > 0);
}

#[test]
fn first_phase_runs_from_the_selection() {
    let mut state = state(100, 1, &[]);
    let pending = state.start_pending_preselected_at(Moment { nanos: 100 });
    let mut context = pending.bind_and_record_phase_at(
        BoundedOperation::known("SET"),
        RequestMetricPhase::JniIngress,
        Moment { nanos: 130 },
    );
    assert!(context.finish_at(&mut state, RequestMetricResult::Success, Moment { nanos: 150 }));
    let drain = state.drain(1).unwrap();
    let sample = &drain.samples()[0];
    assert_eq!(sample.phase_duration(RequestMetricPhase::JniIngress), 30);
    assert_eq!(sample.phase_duration(RequestMetricPhase::Total), 50);
    assert_eq!(
        sample.populated_phase_durations(),
        vec![(RequestMetricPhase::JniIngress, 30), (RequestMetricPhase::Total, 50)]
    );
}

#[test]
fn repeated_phases_add_up_and_open_ones_are_closed_at_the_end() {
    let mut state = state(100, 1, &[]);
    let mut context = request_at(&mut state, 0);
    let first = context.start_phase_at(RequestMetricPhase::SocketWrite, Moment { nanos: 10 });
    let second = context.start_phase_at(RequestMetricPhase::SocketWrite, Moment { nanos: 20 });
    let _open = context.start_phase_at(RequestMetricPhase::ResponseWait, Moment { nanos: 20 });
    assert!(second.finish_at(&mut context, Moment { nanos: 25 }));
    assert!(first.finish_at(&mut context, Moment { nanos: 40 }));
    assert!(context.finish_at(&mut state, RequestMetricResult::Success, Moment { nanos: 100 }));

    let drain = state.drain(1).unwrap();
    let sample = &drain.samples()[0];
    assert_eq!(sample.phase_duration(RequestMetricPhase::SocketWrite), 35);
    assert_eq!(sample.phase_duration(RequestMetricPhase::ResponseWait), 80);
    assert_eq!(sample.phase_duration(RequestMetricPhase::Total), 100);
    assert_eq!(sample.phase_duration(RequestMetricPhase::CoreDecode), 0);
}

#[test]
fn an_interval_takes_at_least_a_nanosecond_and_at_most_what_fits() {
    assert_eq!(measure_interval(Moment { nanos: 5 }, Moment { nanos: 5 }), 1);
    assert_eq!(measure_interval(Moment { nanos: 9 }, Moment { nanos: 5 }), 1);
    assert_eq!(measure_interval(Moment { nanos: 5 }, Moment { nanos: 12 }), 7);
    assert_eq!(measure_interval(Moment { nanos: 0 }, Moment { nanos: u128::MAX }), u64::MAX);
}

#[test]
fn late_work_changes_nothing() {
    let mut state = state(100, 2, &[]);
    let mut context = request_at(&mut state, 0);
    let timer = context.start_phase_at(RequestMetricPhase::ClientQueue, Moment { nanos: 1 });
    assert!(context.finish_at(&mut state, RequestMetricResult::Timeout, Moment { nanos: 10 }));

    assert!(!timer.finish_at(&mut context, Moment { nanos: 90 }));
    let late = context.start_phase_at(RequestMetricPhase::CoreDecode, Moment { nanos: 91 });
    assert!(!late.finish_at(&mut context, Moment { nanos: 92 }));
    context.record_phase_nanos(RequestMetricPhase::CoreDecode, 7);
    context.add_attempts(3);
    assert!(!context.finish_at(&mut state, RequestMetricResult::Success, Moment { nanos: 99 }));

    let drain = state.drain(10).unwrap();
    assert_eq!(drain.samples().len(), 1);
    let sample = &drain.samples()[0];
    assert_eq!(sample.result(), RequestMetricResult::Timeout);
    assert_eq!(sample.attempt_count(), 0);
    assert_eq!(sample.phase_duration(RequestMetricPhase::ClientQueue), 9);
    assert_eq!(sample.phase_duration(RequestMetricPhase::CoreDecode), 0);
    assert_eq!(sample.phase_duration(RequestMetricPhase::Total), 10);
}

#[test]
fn every_sample_is_drained_once_and_in_order() {
    let mut state = state(100, 5, &[]);
    for nanos in 1..=4u128 {
        let mut context = request_at(&mut state, 0);
        context.finish_at(&mut state, RequestMetricResult::Success, Moment { nanos });
    }
    let mut totals = Vec::new();
    loop {
        let drain = state.drain(3).unwrap();
        for sample in drain.samples() {
            totals.push(sample.phase_duration(RequestMetricPhase::Total));
        }
        if !drain.has_more() {
            break;
        }
    }
    assert_eq!(totals, [1, 2, 3, 4]);
    assert_eq!(state.drain(0).unwrap().samples().len(), 0);
}

#[test]
fn a_poisoned_consumer_is_refused_and_loses_nothing() {
    let mut state = state(100, 2, &[]);
    finish_one(&mut state, RequestMetricResult::Success);
    state.poison_consumer();
    let error = state.drain(1).unwrap_err();
    assert_eq!(error, RequestMetricsDrainError::ConsumerPoisoned);
    assert_eq!(error.message(), "request metrics consumer mutex is poisoned");
    assert_eq!(state.drain(1), Err(RequestMetricsDrainError::ConsumerPoisoned));
}

#[test]
fn configuration_errors_come_in_order_and_say_what_is_wrong() {
    assert_eq!(
        refusal(101, 0, &[b"bad"]),
        Some(RequestMetricsConfigurationError::InvalidSamplePercentage { percentage: 101 })
    );
    assert_eq!(
        refusal(100, 0, &[b"bad"]),
        Some(RequestMetricsConfigurationError::InvalidCapacity { capacity: 0 })
    );
    assert_eq!(
        refusal(100, 1, &vec![b"bad".as_slice(); 65]),
        Some(RequestMetricsConfigurationError::TooManyAllowedCustomCommands { count: 65 })
    );
    assert_eq!(
        refusal(100, 1, &[b"GOOD", b"1BAD", b"bad"]),
        Some(RequestMetricsConfigurationError::InvalidAllowedCustomCommand { index: 1 })
    );
    assert_eq!(refusal(100, 1_000_000, &vec![b"A-1_.".as_slice(); 64]), None);

    let messages = [
        (
            RequestMetricsConfigurationError::InvalidSamplePercentage { percentage: 101 },
            "sample percentage must be between 0 and 100, got 101",
        ),
        (
            RequestMetricsConfigurationError::InvalidCapacity { capacity: 0 },
            "buffer capacity must be between 1 and 1,000,000, got 0",
        ),
        (
            RequestMetricsConfigurationError::TooManyAllowedCustomCommands { count: 65 },
            "at most 64 custom commands are allowed, got 65",
        ),
        (
            RequestMetricsConfigurationError::InvalidAllowedCustomCommand { index: 12 },
            "custom command at index 12 must match [A-Z0-9_.-]{1,64}",
        ),
        (
            RequestMetricsConfigurationError::ConfigurationMismatch,
            "request metrics are already configured with a different capacity or allow-list",
        ),
        (
            RequestMetricsConfigurationError::NotConfigured,
            "request metrics have not been configured",
        ),
    ];
    for (error, message) in messages {
        assert_eq!(error.message(), message);
    }
}

#[test]
fn the_allow_list_is_sorted_without_duplicates() {
    let list =
        validate_configuration(0, 1, &[b"JSON.GET", b"FT.SEARCH", b"JSON.GET", b"FT"]).unwrap();
    assert_eq!(list, vec![b"FT".to_vec(), b"FT.SEARCH".to_vec(), b"JSON.GET".to_vec()]);
    assert_eq!(validate_sample_percentage(100), Ok(()));
    assert!(validate_sample_percentage(101).is_err());
}

#[test]
fn custom_commands_are_found_in_any_case() {
    let state = state(100, 1, &[b"JSON.GET", b"FT.SEARCH", b"GRAPH.QUERY"]);
    for spelling in [b"graph.query".as_slice(), b"Graph.Query", b"GRAPH.QUERY"] {
        assert_eq!(state.operation_bytes(state.custom_operation(spelling)), b"GRAPH.QUERY");
    }
    assert_eq!(state.custom_operation(b"GRAPH.QUER"), BoundedOperation::custom_command());
    assert_eq!(
        state.custom_operation(b"ft.search").kind(),
        BoundedOperationKind::AllowedCustom { index: 0, namespace: 1 }
    );
}

#[test]
fn a_process_is_configured_once() {
    let mut global = GlobalRequestMetrics::new();
    assert!(request_metrics_state(&global).is_none());
    assert_eq!(
        set_request_metrics_sample_percentage(&mut global, 10),
        Err(RequestMetricsConfigurationError::NotConfigured)
    );
    assert_eq!(
        set_request_metrics_sample_percentage(&mut global, 101),
        Err(RequestMetricsConfigurationError::InvalidSamplePercentage { percentage: 101 })
    );
    assert_eq!(configure_request_metrics(&mut global, 100, 4, &[b"FT.SEARCH", b"JSON.GET"]), Ok(()));

    finish_one(global.state_mut().unwrap(), RequestMetricResult::Success);
    let identity = request_metrics_state(&global).unwrap().custom_operation(b"json.get");

    assert_eq!(
        configure_request_metrics(&mut global, 0, 5, &[b"FT.SEARCH", b"JSON.GET"]),
        Err(RequestMetricsConfigurationError::ConfigurationMismatch)
    );
    assert_eq!(
        configure_request_metrics(&mut global, 0, 4, &[b"FT.SEARCH"]),
        Err(RequestMetricsConfigurationError::ConfigurationMismatch)
    );
    assert!(global.state_mut().unwrap().start(identity).is_some());

    assert_eq!(
        configure_request_metrics(&mut global, 0, 4, &[b"JSON.GET", b"FT.SEARCH", b"JSON.GET"]),
        Ok(())
    );
    assert!(global.state_mut().unwrap().start(identity).is_none());
    assert_eq!(set_request_metrics_sample_percentage(&mut global, 100), Ok(()));
    assert!(global.state_mut().unwrap().start(identity).is_some());

    assert_eq!(request_metrics_state(&global).unwrap().operation_bytes(identity), b"JSON.GET");
    assert_eq!(global.state_mut().unwrap().drain(9).unwrap().samples().len(), 1);
}

#[test]
fn counters_stop_at_their_limits_and_debt_is_repaid() {
    let mut large = u64::MAX - 1;
    saturating_add_u64(&mut large, 3);
    assert_eq!(large, u64::MAX);
    let mut small = 4u32;
    saturating_add_u32(&mut small, 3);
    assert_eq!(small, 7);
    saturating_add_u32(&mut small, u32::MAX);
    assert_eq!(small, u32::MAX);

    let mut buffered = 0usize;
    decrement_buffered(&mut buffered);
    decrement_buffered(&mut buffered);
    assert_eq!(buffered_count_snapshot(buffered), 0);
    for _ in 0..5 {
        increment_buffered(&mut buffered);
    }
    assert_eq!(buffered_count_snapshot(buffered), 3);
}

#[test]
fn phases_and_results_have_fixed_numbers() {
    let codes = RequestMetricPhase::all().map(|phase| phase.code());
    assert_eq!(codes, [1, 2, 3, 4, 5, 6, 7, 8, 9, 10, 11, 12]);
    assert_eq!(RequestMetricPhase::Total.index(), 11);
    assert_eq!(RequestMetricResult::Success.code(), 1);
    assert_eq!(RequestMetricResult::Failure.code(), 2);
    assert_eq!(RequestMetricResult::Timeout.code(), 3);
    assert_eq!(RequestMetricResult::Cancelled.code(), 4);
}

#[test]
fn the_clock_moves_forward() {
    let clock = Clock::new();
    let earlier = clock.now();
    let mut later = clock.now();
    while later.nanos == earlier.nanos {
        later = clock.now();
    }
    assert!(later.nanos > earlier.nanos);
}

#[test]
fn a_clock_shows_the_nanoseconds_since_its_origin() {
    let origin = tokio::time::Instant::now();
    let clock = Clock::starting_at(origin);
    assert_eq!(clock.moment_at(origin), Moment { nanos: 0 });
    assert_eq!(clock.moment_at(origin + Duration::from_nanos(7)), Moment { nanos: 7 });
    let later = Clock::starting_at(origin + Duration::from_secs(2));
    assert_eq!(
        later.moment_at(origin + Duration::from_millis(2_500)),
        Moment { nanos: 500_000_000 }
    );
    assert_eq!(later.moment_at(origin), Moment { nanos: 0 });
}

#[test]
fn all_states_of_a_process_share_their_namespaces() {
    let mut global = GlobalRequestMetrics::new();
    let before = global.new_state(100, 1, &[b"A"]).unwrap();
    assert_eq!(configure_request_metrics(&mut global, 100, 1, &[b"B"]), Ok(()));
    let after = global.new_state(100, 1, &[b"C"]).unwrap();
    assert_eq!(
        global.new_state(100, 0, &[]).err(),
        Some(RequestMetricsConfigurationError::InvalidCapacity { capacity: 0 })
    );
    let configured = request_metrics_state(&global).unwrap();
    let identity = configured.custom_operation(b"b");
    assert_eq!(configured.operation_bytes(identity), b"B");
    assert_eq!(before.operation_bytes(identity), CUSTOM_COMMAND.as_bytes());
    assert_eq!(after.operation_bytes(identity), CUSTOM_COMMAND.as_bytes());
    assert_eq!(configured.operation_bytes(before.custom_operation(b"A")), CUSTOM_COMMAND.as_bytes());
}

#[test]
fn a_state_knows_its_own_requests() {
    let mut namespaces = OperationNamespaces::new();
    let first = RequestMetricsState::new(&mut namespaces, 100, 1, &[]).unwrap();
    let mut second = RequestMetricsState::new(&mut namespaces, 100, 1, &[]).unwrap();
    let context = request_at(&mut second, 0);
    assert!(second.owns(&context));
    assert!(!first.owns(&context));
    assert_eq!(context.namespace(), 2);
}

#[test]
fn only_the_first_closing_of_a_timer_records() {
    let mut state = state(100, 1, &[]);
    let mut context = request_at(&mut state, 0);
    let other = context.start_phase_at(RequestMetricPhase::ClientQueue, Moment { nanos: 1 });
    let timer = context.start_phase_at(RequestMetricPhase::ClientQueue, Moment { nanos: 2 });
    let clone = timer;
    context.record_phase_nanos(RequestMetricPhase::CoreDecode, 5);
    assert!(other.finish_at(&mut context, Moment { nanos: 4 }));
    assert!(clone.finish_at(&mut context, Moment { nanos: 10 }));
    let _next = context.start_phase_at(RequestMetricPhase::SocketWrite, Moment { nanos: 11 });
    assert!(!timer.finish_at(&mut context, Moment { nanos: 90 }));
    assert!(!clone.finish_at(&mut context, Moment { nanos: 91 }));
    assert!(context.finish_at(&mut state, RequestMetricResult::Success, Moment { nanos: 100 }));
    let drain = state.drain(1).unwrap();
    assert_eq!(drain.samples()[0].phase_duration(RequestMetricPhase::ClientQueue), 3 + 8);
}

#[test]
fn samples_are_conserved_over_a_history() {
    let mut state = state(100, 2, &[]);
    let mut offered = 0;
    let mut drained = 0;
    let mut dropped = 0;
    for round in 0..5usize {
        for _ in 0..=round {
            finish_one(&mut state, RequestMetricResult::Success);
            offered += 1;
        }
        let drain = state.drain(1).unwrap();
        drained += drain.samples().len() as u64;
        dropped += drain.dropped_samples();
        assert_eq!(drained + dropped + drain.remaining_samples(), offered);
    }
}

#[test]
fn the_real_clock_is_what_phases_are_measured_with() {
    let mut state = state(100, 1, &[]);
    let mut context = state.start(BoundedOperation::known("GET")).unwrap();
    let timer = context.start_phase(RequestMetricPhase::ClientQueue);
    let waiting = std::time::Instant::now();
    while waiting.elapsed() < Duration::from_millis(3) {}
    assert!(timer.finish(&mut context));
    assert!(context.finish(&mut state, RequestMetricResult::Success));
    let drain = state.drain(1).unwrap();
    let sample = &drain.samples()[0];
    assert!(sample.phase_duration(RequestMetricPhase::ClientQueue) >= 3_000_000);
    assert!(
        sample.phase_duration(RequestMetricPhase::Total)
            >= sample.phase_duration(RequestMetricPhase::ClientQueue)
    );
}

#[test]
fn the_last_clone_closes_what_no_clone_has_closed() {
    let mut state = state(100, 1, &[]);
    let mut context = request_at(&mut state, 0);
    let timer = context.start_phase(RequestMetricPhase::ClientQueue);
    let timer_clone = timer.clone();
    drop(timer);
    assert!(timer_clone.drop_last(&mut context));
    assert!(!timer_clone.finish(&mut context));

    let used = context.start_phase(RequestMetricPhase::CallbackQueue);
    assert!(used.finish(&mut context));
    assert!(!used.drop_last(&mut context));

    let open = context.start_phase(RequestMetricPhase::CallbackComplete);
    assert!(context.finish(&mut state, RequestMetricResult::Success));
    assert!(!open.drop_last(&mut context));
    let late = context.start_phase(RequestMetricPhase::ClientQueue);
    assert!(!late.drop_last(&mut context));

    let drain = state.drain(1).unwrap();
    let sample = &drain.samples()[0];
    assert!(sample.phase_duration(RequestMetricPhase::ClientQueue) > 0);
    assert!(sample.phase_duration(RequestMetricPhase::CallbackQueue) > 0);
    assert!(sample.phase_duration(RequestMetricPhase::CallbackComplete) > 0);
}

#[test]
fn timers_belong_to_the_request_on_which_they_were_started() {
    let mut namespaces = OperationNamespaces::new();
    let mut state = RequestMetricsState::new(&mut namespaces, 100, 4, &[]).unwrap();
    let mut other_state = RequestMetricsState::new(&mut namespaces, 100, 4, &[]).unwrap();
    let mut first = request_at(&mut state, 0);
    let mut second = request_at(&mut state, 0);
    let foreign = request_at(&mut other_state, 0);

    let timer = first.start_phase_at(RequestMetricPhase::ClientQueue, Moment { nanos: 1 });
    let other = second.start_phase_at(RequestMetricPhase::ClientQueue, Moment { nanos: 1 });
    assert!(timer.is_of(&first));
    assert!(!timer.is_of(&second));
    assert!(!timer.is_of(&foreign));
    assert!(other.is_of(&second));

    assert!(timer.finish_at(&mut first, Moment { nanos: 5 }));
    assert!(timer.is_of(&first));
    assert!(other.finish_at(&mut second, Moment { nanos: 3 }));
    assert!(first.finish_at(&mut state, RequestMetricResult::Success, Moment { nanos: 9 }));
    assert!(second.finish_at(&mut state, RequestMetricResult::Success, Moment { nanos: 9 }));
    let drain = state.drain(4).unwrap();
    assert_eq!(drain.samples()[0].phase_duration(RequestMetricPhase::ClientQueue), 4);
    assert_eq!(drain.samples()[1].phase_duration(RequestMetricPhase::ClientQueue), 2);

    let late = first.start_phase_at(RequestMetricPhase::ClientQueue, Moment { nanos: 10 });
    assert!(late.is_of(&second));
    assert!(!late.finish_at(&mut second, Moment { nanos: 11 }));
}

#[test]
fn the_state_is_there_from_the_first_accepted_configuration_on() {
    let mut global = GlobalRequestMetrics::new();
    assert!(request_metrics_state(&global).is_none());
    assert!(set_request_metrics_sample_percentage(&mut global, 10).is_err());
    assert!(configure_request_metrics(&mut global, 101, 4, &[]).is_err());
    assert!(global.new_state(100, 4, &[]).is_ok());
    assert!(request_metrics_state(&global).is_none());
    assert_eq!(configure_request_metrics(&mut global, 100, 4, &[]), Ok(()));
    assert!(request_metrics_state(&global).is_some());
    assert!(configure_request_metrics(&mut global, 100, 5, &[]).is_err());
    assert!(request_metrics_state(&global).is_some());
}
