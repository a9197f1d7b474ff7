//! The one configuration of a process.

use vstd::prelude::*;

use crate::metrics::allow_list::{
    validate_configuration, validate_sample_percentage, MAX_SAMPLE_PERCENTAGE,
};
use crate::metrics::errors::RequestMetricsConfigurationError;
use crate::metrics::operation::OperationNamespaces;
use crate::metrics::sample::SampleView;
use crate::metrics::state::{RequestMetricsState, StateView};

verus! {

/// What a process holds: the state, once configured, and the source of namespaces.
#[verifier::ext_equal]
pub struct GlobalView {
    pub state: Option<StateView>,
    pub next_namespace: u64,
}

/// The request metrics of a process.
pub struct GlobalRequestMetrics {
    state: Option<RequestMetricsState>,
    namespaces: OperationNamespaces,
}

impl View for GlobalRequestMetrics {
    type V = GlobalView;

    closed spec fn view(&self) -> GlobalView {
        GlobalView {
            state: match self.state {
                Some(state) => Some(state@),
                None => None,
            },
            next_namespace: self.namespaces@,
        }
    }
}

impl GlobalRequestMetrics {
    /// Whether the state, where there is one, is well formed.
    pub closed spec fn wf(&self) -> bool {
        self.state matches Some(state) ==> state.wf()
    }

    /// A process in which nothing was configured.
    pub fn new() -> (global: GlobalRequestMetrics)
        ensures
            global.wf(),
            global@ == (GlobalView { state: None, next_namespace: 1 }),
    {
        GlobalRequestMetrics { state: None, namespaces: OperationNamespaces::new() }
    }

    /// Another state of the process, with a namespace from the source that all its states share.
    pub fn new_state(
        &mut self,
        sample_percentage: u32,
        capacity: usize,
        allowed_custom_commands: &[&[u8]],
    ) -> (result: Result<RequestMetricsState, RequestMetricsConfigurationError>)
        requires
            old(self).wf(),
        ensures
            final(self).wf(),
            new_state_outcome(
                old(self)@,
                final(self)@,
                sample_percentage,
                capacity,
                crate::metrics::allow_list::slices_view(allowed_custom_commands@),
                match result {
                    Ok(state) => Ok(state@),
                    Err(error) => Err(error),
                },
            ),
            result matches Ok(state) ==> state.wf(),
    {
        RequestMetricsState::new(
            &mut self.namespaces,
            sample_percentage,
            capacity,
            allowed_custom_commands,
        )
    }

    /// Lends the configured state, for its own methods and those of its requests to change.
    pub fn state_mut(&mut self) -> (state: Option<&mut RequestMetricsState>)
        requires
            old(self).wf(),
        ensures
            match state {
                Some(state) => {
                    &&& old(self)@.state == Some(state@)
                    &&& state.wf()
                    &&& final(state).wf() ==> final(self).wf()
                    &&& final(self)@ == (GlobalView {
                        state: Some(final(state)@),
                        ..old(self)@
                    })
                },
                None => old(self)@.state is None && final(self)@ == old(self)@ && final(self).wf(),
            },
    {
        match &mut self.state {
            Some(state) => Some(state),
            None => None,
        }
    }
}

/// How making another state comes out: a refused one changes nothing, and an accepted one takes a
/// namespace.
pub open spec fn new_state_outcome(
    before: GlobalView,
    after: GlobalView,
    sample_percentage: u32,
    capacity: usize,
    commands: Seq<Seq<u8>>,
    result: Result<StateView, RequestMetricsConfigurationError>,
) -> bool {
    match crate::metrics::allow_list::configuration_error(sample_percentage, capacity, commands) {
        Some(error) => result == Err::<StateView, _>(error) && after == before,
        None => {
            &&& result matches Ok(state) && crate::metrics::state::is_fresh_state(
                state,
                sample_percentage,
                capacity,
                commands,
                before.next_namespace,
            )
            &&& after == (GlobalView {
                next_namespace: crate::serial::following(before.next_namespace),
                ..before
            })
        },
    }
}

/// What a configuration call answers, given what is configured already.
pub open spec fn configure_error(
    global: GlobalView,
    sample_percentage: u32,
    capacity: usize,
    commands: Seq<Seq<u8>>,
) -> Option<RequestMetricsConfigurationError> {
    match crate::metrics::allow_list::configuration_error(sample_percentage, capacity, commands) {
        Some(error) => Some(error),
        None => match global.state {
            Some(state) => if same_fixed_configuration(state, capacity, commands) {
                None
            } else {
                Some(RequestMetricsConfigurationError::ConfigurationMismatch)
            },
            None => None,
        },
    }
}

/// Whether a state was made with this capacity and these names.
pub open spec fn same_fixed_configuration(
    state: StateView,
    capacity: usize,
    commands: Seq<Seq<u8>>,
) -> bool {
    &&& state.capacity == capacity
    &&& forall|name: Seq<u8>| state.allowed.contains(name) <==> commands.contains(name)
}

/// How a configuration call comes out: a refused one changes nothing, one on a configured process
/// changes only the percentage, and the first accepted one makes the state.
pub open spec fn configure_outcome(
    before: GlobalView,
    after: GlobalView,
    sample_percentage: u32,
    capacity: usize,
    commands: Seq<Seq<u8>>,
    result: Result<(), RequestMetricsConfigurationError>,
) -> bool {
    match configure_error(before, sample_percentage, capacity, commands) {
        Some(error) => result == Err::<(), _>(error) && after == before,
        None => {
            &&& result == Ok::<(), RequestMetricsConfigurationError>(())
            &&& match before.state {
                Some(state) => after == (GlobalView {
                    state: Some(StateView { sample_percentage, ..state }),
                    ..before
                }),
                None => {
                    &&& after.state matches Some(state) && crate::metrics::state::is_fresh_state(
                        state,
                        sample_percentage,
                        capacity,
                        commands,
                        before.next_namespace,
                    )
                    &&& after.next_namespace == crate::serial::following(
                        before.next_namespace,
                    )
                },
            }
        },
    }
}

/// Configures the process, or changes only the sampling percentage where it is configured
/// already.
pub fn configure_request_metrics(
    global: &mut GlobalRequestMetrics,
    sample_percentage: u32,
    capacity: usize,
    allowed_custom_commands: &[&[u8]],
) -> (result: Result<(), RequestMetricsConfigurationError>)
    requires
        old(global).wf(),
    ensures
        final(global).wf(),
        configure_outcome(
            old(global)@,
            final(global)@,
            sample_percentage,
            capacity,
            crate::metrics::allow_list::slices_view(allowed_custom_commands@),
            result,
        ),
{
    let ghost commands = crate::metrics::allow_list::slices_view(allowed_custom_commands@);
    let allowed = match validate_configuration(
        sample_percentage,
        capacity,
        allowed_custom_commands,
    ) {
        Ok(allowed) => allowed,
        Err(error) => {
            return Err(error);
        },
    };
    proof {
        let list = crate::metrics::allow_list::vecs_view(allowed@);
        crate::metrics::allow_list::lemma_allow_list_is_valid(list, commands);
        if global.state is Some {
            let state = global.state.unwrap();
            state.lemma_wf_is_valid();
            lemma_same_names(state@, list, commands);
        }
    }
    match &mut global.state {
        Some(state) => update_matching_global(state, sample_percentage, capacity, &allowed),
        None => {
            global.state = Some(
                RequestMetricsState::from_validated(
                    &mut global.namespaces,
                    sample_percentage,
                    capacity,
                    allowed,
                ),
            );
            Ok(())
        },
    }
}

proof fn lemma_same_names(state: StateView, list: Seq<Seq<u8>>, commands: Seq<Seq<u8>>)
    requires
        state.valid(),
        crate::metrics::allow_list::is_allow_list_of(list, commands),
    ensures
        state.allowed == list <==> (forall|name: Seq<u8>|
            state.allowed.contains(name) <==> commands.contains(name)),
{
    if forall|name: Seq<u8>| state.allowed.contains(name) <==> commands.contains(name) {
        crate::metrics::byte_order::lemma_ascending_list_is_unique(state.allowed, list);
    }
}

/// How a change of the sampling percentage comes out.
pub open spec fn percentage_outcome(
    before: GlobalView,
    after: GlobalView,
    sample_percentage: u32,
    result: Result<(), RequestMetricsConfigurationError>,
) -> bool {
    if sample_percentage > MAX_SAMPLE_PERCENTAGE {
        &&& result == Err::<(), _>(
            RequestMetricsConfigurationError::InvalidSamplePercentage {
                percentage: sample_percentage,
            },
        )
        &&& after == before
    } else {
        match before.state {
            Some(state) => {
                &&& result == Ok::<(), RequestMetricsConfigurationError>(())
                &&& after == (GlobalView {
                    state: Some(StateView { sample_percentage, ..state }),
                    ..before
                })
            },
            None => {
                &&& result == Err::<(), _>(RequestMetricsConfigurationError::NotConfigured)
                &&& after == before
            },
        }
    }
}

/// Changes the sampling percentage of a configured process.
pub fn set_request_metrics_sample_percentage(
    global: &mut GlobalRequestMetrics,
    sample_percentage: u32,
) -> (result: Result<(), RequestMetricsConfigurationError>)
    requires
        old(global).wf(),
    ensures
        final(global).wf(),
        percentage_outcome(old(global)@, final(global)@, sample_percentage, result),
{
    match validate_sample_percentage(sample_percentage) {
        Ok(()) => {},
        Err(error) => {
            return Err(error);
        },
    }
    match &mut global.state {
        Some(state) => {
            state.update_sample_percentage(sample_percentage);
            Ok(())
        },
        None => Err(RequestMetricsConfigurationError::NotConfigured),
    }
}

/// The configured state, where there is one.
pub fn request_metrics_state(global: &GlobalRequestMetrics) -> (state: Option<
    &RequestMetricsState,
>)
    requires
        global.wf(),
    ensures
        match state {
            Some(state) => global@.state == Some(state@) && state.wf(),
            None => global@.state is None,
        },
{
    match &global.state {
        Some(state) => Some(state),
        None => None,
    }
}

/// Changes the sampling percentage of a state whose fixed configuration is the given one, and
/// refuses any other.
pub fn update_matching_global(
    state: &mut RequestMetricsState,
    sample_percentage: u32,
    capacity: usize,
    allowed_custom_commands: &Vec<Vec<u8>>,
) -> (result: Result<(), RequestMetricsConfigurationError>)
    requires
        old(state).wf(),
        sample_percentage <= MAX_SAMPLE_PERCENTAGE,
    ensures
        final(state).wf(),
        if old(state)@.capacity == capacity && old(state)@.allowed
            == crate::metrics::allow_list::vecs_view(allowed_custom_commands@) {
            &&& result == Ok::<(), RequestMetricsConfigurationError>(())
            &&& final(state)@ == (StateView { sample_percentage, ..old(state)@ })
        } else {
            &&& result == Err::<(), _>(RequestMetricsConfigurationError::ConfigurationMismatch)
            &&& final(state)@ == old(state)@
        },
{
    if !state.has_same_fixed_configuration(capacity, allowed_custom_commands) {
        return Err(RequestMetricsConfigurationError::ConfigurationMismatch);
    }
    state.update_sample_percentage(sample_percentage);
    Ok(())
}

/// A call that configures, with what it brings.
pub enum ConfigurationCall {
    Configure { sample_percentage: u32, capacity: usize, commands: Seq<Seq<u8>> },
    SetPercentage { sample_percentage: u32 },
}

/// Whether a call can take a process from `before` to `after` with this answer.
pub open spec fn call_outcome(
    before: GlobalView,
    after: GlobalView,
    call: ConfigurationCall,
    result: Result<(), RequestMetricsConfigurationError>,
) -> bool {
    match call {
        ConfigurationCall::Configure { sample_percentage, capacity, commands } => configure_outcome(
            before,
            after,
            sample_percentage,
            capacity,
            commands,
            result,
        ),
        ConfigurationCall::SetPercentage { sample_percentage } => percentage_outcome(
            before,
            after,
            sample_percentage,
            result,
        ),
    }
}

/// Once configured, a process keeps its state through all later configuration calls: the capacity, the
/// allow-list, the namespace, the buffered samples and the count of dropped ones stay, and only
/// the percentage can change.
pub proof fn law_configuration_is_kept(
    history: Seq<GlobalView>,
    calls: Seq<ConfigurationCall>,
    results: Seq<Result<(), RequestMetricsConfigurationError>>,
    later: int,
)
    requires
        history.len() == calls.len() + 1,
        results.len() == calls.len(),
        forall|i: int|
            0 <= i < calls.len() ==> call_outcome(
                history[i],
                history[i + 1],
                #[trigger] calls[i],
                results[i],
            ),
        history[0].state is Some,
        0 <= later < history.len(),
    ensures
        history[later].next_namespace == history[0].next_namespace,
        history[later].state is Some,
        history[later].state.unwrap() == (StateView {
            sample_percentage: history[later].state.unwrap().sample_percentage,
            ..history[0].state.unwrap()
        }),
    decreases later,
{
    if later > 0 {
        law_configuration_is_kept(history, calls, results, later - 1);
        assert(call_outcome(
            history[later - 1],
            history[later],
            calls[later - 1],
            results[later - 1],
        ));
    }
}

/// Something that happens to a process or to its configured state.
pub enum ProcessEvent {
    Called { call: ConfigurationCall, result: Result<(), RequestMetricsConfigurationError> },
    /// Another state was made, or refused.
    StateMade,
    /// A request was selected.
    Selected,
    /// A request ended and offered its sample.
    Offered { sample: SampleView },
    Drained { max_samples: usize },
    ConsumerPoisoned,
}

/// Whether an event can take a process from `before` to `after`.
pub open spec fn event_outcome(before: GlobalView, after: GlobalView, event: ProcessEvent) -> bool {
    match event {
        ProcessEvent::Called { call, result } => call_outcome(before, after, call, result),
        ProcessEvent::StateMade => after.state == before.state,
        ProcessEvent::Selected => match before.state {
            Some(state) => after == (GlobalView { state: Some(state.after_selection()), ..before }),
            None => after == before,
        },
        ProcessEvent::Offered { sample } => match before.state {
            Some(state) => after == (GlobalView { state: Some(state.offered(sample)), ..before }),
            None => after == before,
        },
        ProcessEvent::Drained { max_samples } => match before.state {
            Some(state) => after == (GlobalView {
                state: Some(state.drained(max_samples)),
                ..before
            }),
            None => after == before,
        },
        ProcessEvent::ConsumerPoisoned => match before.state {
            Some(state) => after == (GlobalView {
                state: Some(StateView { consumer_poisoned: true, ..state }),
                ..before
            }),
            None => after == before,
        },
    }
}

/// Whether two states have the same fixed parts: capacity, allow-list, namespace and clock.
pub open spec fn same_fixed_parts(a: StateView, b: StateView) -> bool {
    &&& a.capacity == b.capacity
    &&& a.allowed == b.allowed
    &&& a.namespace == b.namespace
    &&& a.clock == b.clock
}

/// Once configured, a process keeps the capacity, the allow-list, the namespace and the clock of
/// its state, whatever is called, made, selected, offered and drained.
pub proof fn law_fixed_parts_are_kept(
    history: Seq<GlobalView>,
    events: Seq<ProcessEvent>,
    later: int,
)
    requires
        history.len() == events.len() + 1,
        forall|i: int|
            0 <= i < events.len() ==> event_outcome(
                history[i],
                history[i + 1],
                #[trigger] events[i],
            ),
        history[0].state is Some,
        0 <= later < history.len(),
    ensures
        history[later].state is Some,
        same_fixed_parts(history[0].state.unwrap(), history[later].state.unwrap()),
    decreases later,
{
    if later > 0 {
        law_fixed_parts_are_kept(history, events, later - 1);
        assert(event_outcome(history[later - 1], history[later], events[later - 1]));
    }
}

/// Whether an event is an accepted configuration.
pub open spec fn configures(event: ProcessEvent) -> bool {
    event matches ProcessEvent::Called { call, result } && call is Configure && result is Ok
}

/// A process that starts unconfigured has a state exactly from the first configuration on that was
/// accepted, and keeps the fixed parts that every accepted configuration found or made.
pub proof fn law_state_comes_with_configuration(
    history: Seq<GlobalView>,
    events: Seq<ProcessEvent>,
    later: int,
)
    requires
        history.len() == events.len() + 1,
        forall|i: int|
            0 <= i < events.len() ==> event_outcome(
                history[i],
                history[i + 1],
                #[trigger] events[i],
            ),
        history[0].state is None,
        0 <= later < history.len(),
    ensures
        history[later].state is Some <==> exists|i: int|
            0 <= i < later && configures(#[trigger] events[i]),
        forall|i: int|
            0 <= i < later && configures(#[trigger] events[i]) ==> same_fixed_parts(
                history[i + 1].state.unwrap(),
                history[later].state.unwrap(),
            ),
    decreases later,
{
    if later > 0 {
        law_state_comes_with_configuration(history, events, later - 1);
        let event = events[later - 1];
        assert(event_outcome(history[later - 1], history[later], event));
        if history[later - 1].state is Some {
            let i = choose|i: int| 0 <= i < later - 1 && configures(#[trigger] events[i]);
            assert(0 <= i < later && configures(events[i]));
        } else if configures(event) {
            assert(0 <= later - 1 < later && configures(events[later - 1]));
        } else if exists|i: int| 0 <= i < later && configures(#[trigger] events[i]) {
            let i = choose|i: int| 0 <= i < later && configures(#[trigger] events[i]);
            assert(i < later - 1);
        }
    }
}

/// A refused call changes nothing, and a call on a configured process with another capacity or
/// other names is refused as a mismatch.
pub proof fn law_refused_configuration_changes_nothing(
    before: GlobalView,
    after: GlobalView,
    sample_percentage: u32,
    capacity: usize,
    commands: Seq<Seq<u8>>,
    result: Result<(), RequestMetricsConfigurationError>,
)
    requires
        configure_outcome(before, after, sample_percentage, capacity, commands, result),
    ensures
        result is Err ==> after == before,
        before.state is Some && crate::metrics::allow_list::configuration_error(
            sample_percentage,
            capacity,
            commands,
        ) is None && !same_fixed_configuration(before.state.unwrap(), capacity, commands)
            ==> result == Err::<(), _>(RequestMetricsConfigurationError::ConfigurationMismatch),
{
}

/// A configuration call is accepted exactly where its values are good and no other capacity or names
/// are configured. It then takes effect: the state has the given percentage, capacity and names. On a
/// configured process all else stays; otherwise the state is new and takes the next namespace. A
/// refused call changes nothing, and bad values are refused before a mismatch is.
pub proof fn law_configuration_takes_effect(
    before: GlobalView,
    after: GlobalView,
    sample_percentage: u32,
    capacity: usize,
    commands: Seq<Seq<u8>>,
    result: Result<(), RequestMetricsConfigurationError>,
    name: Seq<u8>,
)
    requires
        configure_outcome(before, after, sample_percentage, capacity, commands, result),
        commands.len() <= usize::MAX,
    ensures
        ({
            let good = sample_percentage <= 100 && 1 <= capacity <= 1_000_000 && commands.len() <= 64
                && forall|i: int|
                0 <= i < commands.len() ==> crate::metrics::allow_list::valid_custom_command(
                    #[trigger] commands[i],
                );
            let same = before.state matches Some(state) ==> state.capacity == capacity && forall|
                other: Seq<u8>,
            | #[trigger]
                state.allowed.contains(other) <==> commands.contains(other);
            &&& result is Ok <==> good && same
            &&& result is Err ==> after == before
            &&& good && !same ==> result == Err::<(), _>(
                RequestMetricsConfigurationError::ConfigurationMismatch,
            )
            &&& !good ==> (result matches Err(error)
                && crate::metrics::allow_list::configuration_error(
                sample_percentage,
                capacity,
                commands,
            ) == Some(error))
            &&& result is Ok ==> {
                &&& after.state matches Some(state) && state.sample_percentage == sample_percentage
                    && state.capacity == capacity && (state.allowed.contains(name)
                    <==> commands.contains(name))
                &&& before.state matches Some(state) ==> after == (GlobalView {
                    state: Some(StateView { sample_percentage, ..state }),
                    next_namespace: before.next_namespace,
                })
                &&& before.state is None ==> {
                    let state = after.state.unwrap();
                    &&& state.buffered.len() == 0
                    &&& state.dropped_samples == 0
                    &&& state.namespace == before.next_namespace
                    &&& !state.consumer_poisoned
                    &&& before.next_namespace < u64::MAX ==> after.next_namespace
                        == before.next_namespace + 1
                }
            }
        }),
{
    crate::metrics::allow_list::law_configurations_that_are_refused(
        sample_percentage,
        capacity,
        commands,
        0,
    );
    if before.state is Some {
        let state = before.state.unwrap();
        assert((forall|other: Seq<u8>| #[trigger]
            state.allowed.contains(other) <==> commands.contains(other)) <==> (forall|other: Seq<u8>|
            state.allowed.contains(other) <==> commands.contains(other)));
    }
}

/// A change of the percentage takes effect exactly where it is at most 100 and the process is
/// configured, and changes nothing else. A percentage above 100 is refused first.
pub proof fn law_percentage_takes_effect(
    before: GlobalView,
    after: GlobalView,
    sample_percentage: u32,
    result: Result<(), RequestMetricsConfigurationError>,
)
    requires
        percentage_outcome(before, after, sample_percentage, result),
    ensures
        result is Ok <==> sample_percentage <= 100 && before.state is Some,
        result is Ok ==> after == (GlobalView {
            state: Some(StateView { sample_percentage, ..before.state.unwrap() }),
            next_namespace: before.next_namespace,
        }),
        result is Err ==> after == before,
        sample_percentage > 100 ==> result == Err::<(), _>(
            RequestMetricsConfigurationError::InvalidSamplePercentage {
                percentage: sample_percentage,
            },
        ),
        sample_percentage <= 100 && before.state is None ==> result == Err::<(), _>(
            RequestMetricsConfigurationError::NotConfigured,
        ),
{
}

/// Another state is made exactly where its values are good: with these values, empty, and with the
/// next namespace. The configured state stays as it is.
pub proof fn law_other_states_leave_the_configured_one(
    before: GlobalView,
    after: GlobalView,
    sample_percentage: u32,
    capacity: usize,
    commands: Seq<Seq<u8>>,
    result: Result<StateView, RequestMetricsConfigurationError>,
)
    requires
        new_state_outcome(before, after, sample_percentage, capacity, commands, result),
        commands.len() <= usize::MAX,
    ensures
        after.state == before.state,
        result is Ok <==> sample_percentage <= 100 && 1 <= capacity <= 1_000_000 && commands.len()
            <= 64 && forall|i: int|
            0 <= i < commands.len() ==> crate::metrics::allow_list::valid_custom_command(
                #[trigger] commands[i],
            ),
        result matches Ok(state) ==> {
            &&& state.sample_percentage == sample_percentage
            &&& state.capacity == capacity
            &&& state.namespace == before.next_namespace
            &&& state.buffered.len() == 0
            &&& before.next_namespace < u64::MAX ==> after.next_namespace == before.next_namespace
                + 1
        },
        result matches Err(error) ==> after == before
            && crate::metrics::allow_list::configuration_error(
            sample_percentage,
            capacity,
            commands,
        ) == Some(error),
{
    crate::metrics::allow_list::law_configurations_that_are_refused(
        sample_percentage,
        capacity,
        commands,
        0,
    );
}

} // verus!
