//! The state that samples requests and buffers what they report.

use std::collections::VecDeque;

use vstd::prelude::*;

use rand::Rng;

use crate::metrics::allow_list::{
    find_command, validate_configuration, MAX_ALLOWED_CUSTOM_COMMANDS, MAX_BUFFER_CAPACITY,
    MAX_SAMPLE_PERCENTAGE,
};
use crate::metrics::clock::{Clock, Moment};
use crate::metrics::context::{PendingRequestMetricContext, PendingView, RequestMetricContext};
use crate::metrics::counters::{
    buffered_count_snapshot, decrement_buffered, increment_buffered, saturating_add_u64,
};
use crate::metrics::errors::{RequestMetricsConfigurationError, RequestMetricsDrainError};
use crate::metrics::operation::{
    BoundedOperation, BoundedOperationKind, OperationNamespaces, CUSTOM_COMMAND,
};
use crate::metrics::sample::{DrainView, RequestMetricDrain, RequestMetricSample, SampleView};

verus! {

/// Supplies percentiles to a state.
///
/// Production callers use [`RequestMetricsState::start`]. A sampler is handed to one call on one
/// state and affects no other.
pub trait Sampler: Sized {
    /// Whether a draw that takes the sampler from `before` to `after` can give this percentile. A
    /// sampler that says nothing more can give any.
    open spec fn can_draw(before: Self, after: Self, percentile: u32) -> bool {
        true
    }

    /// Draws a percentile.
    fn sample_percentile(&mut self) -> (percentile: u32)
        ensures
            Self::can_draw(*old(self), *final(self), percentile),
    ;
}

/// `rand::rng` and `Rng::random_range`: a random number below the bound. Which one it is depends on
/// chance.
#[verifier::external_body]
fn random_below(bound: u32) -> (number: u32)
    requires
        bound > 0,
    ensures
        number < bound,
{
    rand::rng().random_range(0..bound)
}

/// Draws percentiles from the random generator of the calling thread.
pub struct ThreadLocalSampler;

impl Sampler for ThreadLocalSampler {
    open spec fn can_draw(before: Self, after: Self, percentile: u32) -> bool {
        percentile < MAX_SAMPLE_PERCENTAGE
    }

    fn sample_percentile(&mut self) -> (percentile: u32) {
        random_below(MAX_SAMPLE_PERCENTAGE)
    }
}

/// Whether a request with this percentile is sampled at this percentage.
pub open spec fn selected(sample_percentage: u32, percentile: u32) -> bool {
    percentile < sample_percentage
}

/// Whether a request with this percentile is sampled at this percentage.
pub fn selects(sample_percentage: u32, percentile: u32) -> (sampled: bool)
    ensures
        sampled == selected(sample_percentage, percentile),
{
    percentile < sample_percentage
}

/// How many of the percentiles below `bound` are sampled at this percentage.
pub open spec fn selected_below(sample_percentage: u32, bound: nat) -> nat
    decreases bound,
{
    if bound == 0 {
        0
    } else {
        selected_below(sample_percentage, (bound - 1) as nat) + (if selected(
            sample_percentage,
            (bound - 1) as u32,
        ) {
            1nat
        } else {
            0nat
        })
    }
}

/// Of the percentiles that can be drawn, as many are sampled as the percentage says: sampling is
/// proportional.
pub proof fn law_sampling_is_proportional(sample_percentage: u32)
    requires
        sample_percentage <= MAX_SAMPLE_PERCENTAGE,
    ensures
        selected_below(sample_percentage, MAX_SAMPLE_PERCENTAGE as nat) == sample_percentage,
{
    lemma_selected_below(sample_percentage, MAX_SAMPLE_PERCENTAGE as nat);
}

proof fn lemma_selected_below(sample_percentage: u32, bound: nat)
    requires
        bound <= MAX_SAMPLE_PERCENTAGE,
    ensures
        selected_below(sample_percentage, bound) == (if bound <= sample_percentage {
            bound
        } else {
            sample_percentage as nat
        }),
    decreases bound,
{
    if bound > 0 {
        lemma_selected_below(sample_percentage, (bound - 1) as nat);
    }
}

/// A request that is sampled at some percentage is sampled at every higher one.
pub proof fn law_sampling_is_monotonic(lower: u32, higher: u32, percentile: u32)
    requires
        lower <= higher,
        selected(lower, percentile),
    ensures
        selected(higher, percentile),
{
}

/// What a state holds.
#[verifier::ext_equal]
pub struct StateView {
    pub sample_percentage: u32,
    /// The buffered samples, oldest first.
    pub buffered: Seq<SampleView>,
    pub dropped_samples: u64,
    pub allowed: Seq<Seq<u8>>,
    pub capacity: usize,
    pub namespace: u64,
    pub consumer_poisoned: bool,
    /// The clock that times the requests of the state.
    pub clock: Clock,
    /// The number that the next selected request gets.
    pub next_request: u64,
}

impl StateView {
    /// A request that the state selects at this instant.
    pub open spec fn selected_at(self, instant: tokio::time::Instant) -> PendingView {
        PendingView {
            started_at: self.clock.shows(instant),
            clock: self.clock,
            namespace: self.namespace,
            number: self.next_request,
        }
    }

    /// The state after it selected a request.
    pub open spec fn after_selection(self) -> StateView {
        StateView { next_request: crate::serial::following(self.next_request), ..self }
    }

    /// The state after it was asked for a request, and selected one or not.
    pub open spec fn after_choice(self, selected: bool) -> StateView {
        if selected {
            self.after_selection()
        } else {
            self
        }
    }

    /// The state after it selected so many requests.
    pub open spec fn after_selections(self, count: nat) -> StateView
        decreases count,
    {
        if count == 0 {
            self
        } else {
            self.after_selections((count - 1) as nat).after_selection()
        }
    }

    /// The state after a completed sample was offered: buffered where there is room, counted as
    /// dropped where there is none.
    pub open spec fn offered(self, sample: SampleView) -> StateView {
        if self.buffered.len() < self.capacity {
            StateView { buffered: self.buffered.push(sample), ..self }
        } else {
            StateView {
                dropped_samples: crate::metrics::counters::saturated_u64(self.dropped_samples, 1),
                ..self
            }
        }
    }

    /// How many samples a drain with this limit takes.
    pub open spec fn drain_count(self, max_samples: usize) -> int {
        if max_samples <= self.buffered.len() {
            max_samples as int
        } else {
            self.buffered.len() as int
        }
    }

    /// The state after a drain with this limit.
    pub open spec fn drained(self, max_samples: usize) -> StateView {
        StateView {
            buffered: self.buffered.skip(self.drain_count(max_samples)),
            dropped_samples: 0,
            ..self
        }
    }

    /// What a drain with this limit reports.
    pub open spec fn drain_report(self, max_samples: usize) -> DrainView {
        let remaining = self.buffered.len() - self.drain_count(max_samples);
        DrainView {
            samples: self.buffered.take(self.drain_count(max_samples)),
            dropped_samples: self.dropped_samples,
            remaining_samples: remaining as u64,
            has_more: remaining > 0,
        }
    }

    /// Whether the parts of the state fit together.
    pub open spec fn valid(self) -> bool {
        &&& self.sample_percentage <= MAX_SAMPLE_PERCENTAGE
        &&& 1 <= self.capacity <= MAX_BUFFER_CAPACITY
        &&& self.buffered.len() <= self.capacity
        &&& self.allowed.len() <= MAX_ALLOWED_CUSTOM_COMMANDS
        &&& crate::metrics::byte_order::strictly_ascending(self.allowed)
        &&& forall|i: int|
            0 <= i < self.allowed.len()
                ==> crate::metrics::allow_list::valid_custom_command(#[trigger] self.allowed[i])
    }
}

/// Samples requests and buffers what they report.
///
/// The count of buffered samples is no part of the view: `wf` says that it is the length of the
/// buffer.
pub struct RequestMetricsState {
    sample_percentage: u32,
    samples: VecDeque<RequestMetricSample>,
    buffered_samples: usize,
    dropped_samples: u64,
    allowed_custom_commands: Vec<Vec<u8>>,
    capacity: usize,
    operation_namespace: u64,
    consumer_poisoned: bool,
    clock: Clock,
    next_request: u64,
}

impl View for RequestMetricsState {
    type V = StateView;

    closed spec fn view(&self) -> StateView {
        StateView {
            sample_percentage: self.sample_percentage,
            buffered: crate::metrics::sample::samples_view(self.samples@),
            dropped_samples: self.dropped_samples,
            allowed: crate::metrics::allow_list::vecs_view(self.allowed_custom_commands@),
            capacity: self.capacity,
            namespace: self.operation_namespace,
            consumer_poisoned: self.consumer_poisoned,
            clock: self.clock,
            next_request: self.next_request,
        }
    }
}

impl RequestMetricsState {
    /// Whether the state is one that its methods can have made.
    pub closed spec fn wf(&self) -> bool {
        &&& self@.valid()
        &&& self.buffered_samples == self.samples@.len()
    }

    /// What `wf` says of the parts that callers see.
    pub proof fn lemma_wf_is_valid(&self)
        requires
            self.wf(),
        ensures
            self@.valid(),
    {
    }

    /// A state with an empty buffer.
    pub fn new(
        namespaces: &mut OperationNamespaces,
        sample_percentage: u32,
        capacity: usize,
        allowed_custom_commands: &[&[u8]],
    ) -> (result: Result<RequestMetricsState, RequestMetricsConfigurationError>)
        ensures
            match result {
                Ok(state) => {
                    &&& crate::metrics::allow_list::configuration_error(
                        sample_percentage,
                        capacity,
                        crate::metrics::allow_list::slices_view(allowed_custom_commands@),
                    ) is None
                    &&& state.wf()
                    &&& is_fresh_state(
                        state@,
                        sample_percentage,
                        capacity,
                        crate::metrics::allow_list::slices_view(allowed_custom_commands@),
                        old(namespaces)@,
                    )
                    &&& final(namespaces)@ == crate::serial::following(old(namespaces)@)
                },
                Err(error) => {
                    &&& crate::metrics::allow_list::configuration_error(
                        sample_percentage,
                        capacity,
                        crate::metrics::allow_list::slices_view(allowed_custom_commands@),
                    ) == Some(error)
                    &&& final(namespaces)@ == old(namespaces)@
                },
            },
    {
        match validate_configuration(sample_percentage, capacity, allowed_custom_commands) {
            Ok(list) => {
                proof {
                    crate::metrics::allow_list::lemma_allow_list_is_valid(
                        crate::metrics::allow_list::vecs_view(list@),
                        crate::metrics::allow_list::slices_view(allowed_custom_commands@),
                    );
                }
                Ok(
                    RequestMetricsState::from_validated(
                        namespaces,
                        sample_percentage,
                        capacity,
                        list,
                    ),
                )
            },
            Err(error) => Err(error),
        }
    }

    /// A state of a validated configuration.
    pub(crate) fn from_validated(
        namespaces: &mut OperationNamespaces,
        sample_percentage: u32,
        capacity: usize,
        allowed_custom_commands: Vec<Vec<u8>>,
    ) -> (state: RequestMetricsState)
        requires
            sample_percentage <= MAX_SAMPLE_PERCENTAGE,
            1 <= capacity <= MAX_BUFFER_CAPACITY,
            allowed_custom_commands@.len() <= MAX_ALLOWED_CUSTOM_COMMANDS,
            crate::metrics::byte_order::strictly_ascending(
                crate::metrics::allow_list::vecs_view(allowed_custom_commands@),
            ),
            forall|i: int|
                0 <= i < allowed_custom_commands@.len()
                    ==> crate::metrics::allow_list::valid_custom_command(
                    #[trigger] crate::metrics::allow_list::vecs_view(allowed_custom_commands@)[i],
                ),
        ensures
            state.wf(),
            state@ == (StateView {
                sample_percentage,
                buffered: Seq::empty(),
                dropped_samples: 0,
                allowed: crate::metrics::allow_list::vecs_view(allowed_custom_commands@),
                capacity,
                namespace: old(namespaces)@,
                consumer_poisoned: false,
                clock: state@.clock,
                next_request: 0,
            }),
            final(namespaces)@ == crate::serial::following(old(namespaces)@),
    {
        let state = RequestMetricsState {
            sample_percentage,
            samples: VecDeque::new(),
            buffered_samples: 0,
            dropped_samples: 0,
            allowed_custom_commands,
            capacity,
            operation_namespace: namespaces.allocate(),
            consumer_poisoned: false,
            clock: Clock::new(),
            next_request: 0,
        };
        proof {
            assert(state@.buffered =~= Seq::empty());
        }
        state
    }

    /// Starts a sampled request, with the random sampler of the calling thread.
    pub fn start(&mut self, operation: BoundedOperation) -> (started: Option<RequestMetricContext>)
        ensures
            final(self)@ == old(self)@.after_choice(started is Some),
            final(self).wf() == old(self).wf(),
            old(self)@.sample_percentage == 0 ==> started is None,
            old(self)@.sample_percentage >= MAX_SAMPLE_PERCENTAGE ==> started is Some,
            started matches Some(context) ==> exists|instant: tokio::time::Instant|
                context@ == crate::metrics::context::fresh_context(
                    operation@,
                    #[trigger] old(self)@.selected_at(instant),
                ),
    {
        match self.start_pending() {
            Some(pending) => Some(pending.bind(operation)),
            None => None,
        }
    }

    /// Starts a sampled request, with a sampler of the caller's.
    pub fn start_with_sampler<S: Sampler>(
        &mut self,
        operation: BoundedOperation,
        sampler: &mut S,
    ) -> (started: Option<RequestMetricContext>)
        ensures
            final(self)@ == old(self)@.after_choice(started is Some),
            final(self).wf() == old(self).wf(),
            sampling_outcome(
                old(self)@.sample_percentage,
                *old(sampler),
                *final(sampler),
                started is Some,
            ),
            started matches Some(context) ==> exists|instant: tokio::time::Instant|
                context@ == crate::metrics::context::fresh_context(
                    operation@,
                    #[trigger] old(self)@.selected_at(instant),
                ),
    {
        match self.start_pending_with_sampler(sampler) {
            Some(pending) => Some(pending.bind(operation)),
            None => None,
        }
    }

    /// Selects a request whose operation is not known yet, with the random sampler of the calling
    /// thread.
    pub fn start_pending(&mut self) -> (started: Option<PendingRequestMetricContext>)
        ensures
            final(self)@ == old(self)@.after_choice(started is Some),
            final(self).wf() == old(self).wf(),
            old(self)@.sample_percentage == 0 ==> started is None,
            old(self)@.sample_percentage >= MAX_SAMPLE_PERCENTAGE ==> started is Some,
            started matches Some(pending) ==> exists|instant: tokio::time::Instant|
                pending@ == #[trigger] old(self)@.selected_at(instant),
    {
        let mut sampler = ThreadLocalSampler;
        self.start_pending_with_sampler(&mut sampler)
    }

    /// Selects a request whose operation is not known yet, with a sampler of the caller's. The
    /// sampler is asked only where the percentage leaves the decision open.
    pub fn start_pending_with_sampler<S: Sampler>(&mut self, sampler: &mut S) -> (started: Option<
        PendingRequestMetricContext,
    >)
        ensures
            final(self)@ == old(self)@.after_choice(started is Some),
            final(self).wf() == old(self).wf(),
            sampling_outcome(
                old(self)@.sample_percentage,
                *old(sampler),
                *final(sampler),
                started is Some,
            ),
            started matches Some(pending) ==> exists|instant: tokio::time::Instant|
                pending@ == #[trigger] old(self)@.selected_at(instant),
    {
        let sample_percentage = self.sample_percentage;
        if sample_percentage == 0 {
            return None;
        }
        if sample_percentage < MAX_SAMPLE_PERCENTAGE {
            let percentile = sampler.sample_percentile();
            if !selects(sample_percentage, percentile) {
                return None;
            }
        }
        Some(self.start_pending_preselected())
    }

    /// Starts a request that was already selected, without sampling again.
    pub fn start_pending_preselected(&mut self) -> (pending: PendingRequestMetricContext)
        ensures
            final(self)@ == old(self)@.after_selection(),
            final(self).wf() == old(self).wf(),
            exists|instant: tokio::time::Instant| pending@ == #[trigger] old(self)@.selected_at(instant),
    {
        let now = self.clock.now();
        proof {
            let instant = choose|instant: tokio::time::Instant|
                now == #[trigger] self.clock.shows(instant);
            assert(self@.selected_at(instant).started_at == now);
        }
        self.start_pending_preselected_at(now)
    }

    /// Starts a request that was already selected, at `now`.
    pub fn start_pending_preselected_at(&mut self, now: Moment) -> (pending: PendingRequestMetricContext)
        ensures
            final(self)@ == old(self)@.after_selection(),
            final(self).wf() == old(self).wf(),
            pending@ == (PendingView {
                started_at: now,
                clock: old(self)@.clock,
                namespace: old(self)@.namespace,
                number: old(self)@.next_request,
            }),
    {
        let number = self.next_request;
        self.next_request = self.next_request.wrapping_add(1);
        PendingRequestMetricContext::new(now, self.clock, self.operation_namespace, number)
    }

    /// Whether a request was selected by this state.
    pub fn owns(&self, context: &RequestMetricContext) -> (own: bool)
        ensures
            own == (self@.namespace == context@.namespace),
    {
        self.operation_namespace == context.namespace()
    }

    /// The identity of a custom command: its slot on the allow-list, looked up without regard to
    /// ASCII case, or the fallback.
    pub fn custom_operation(&self, operation: &[u8]) -> (identity: BoundedOperation)
        requires
            self.wf(),
        ensures
            identity@ == custom_identity(self@.allowed, self@.namespace, operation@),
    {
        let ghost names = self@.allowed;
        let ghost key = crate::metrics::byte_order::upper_bytes(operation@);
        match find_command(&self.allowed_custom_commands, operation) {
            Some(index) => {
                proof {
                    assert(names[index as int] == key);
                    lemma_slot_is_unique(names, key, index as int);
                }
                BoundedOperation::allowed_custom(index as u8, self.operation_namespace)
            },
            None => BoundedOperation::custom_command(),
        }
    }

    /// The label of an operation, as bytes.
    pub fn operation_bytes(&self, operation: BoundedOperation) -> (label: &[u8])
        ensures
            label@ == crate::metrics::operation::operation_label(
                operation@,
                self@.allowed,
                self@.namespace,
            ),
    {
        match operation.kind() {
            BoundedOperationKind::Known(name) => name.as_bytes(),
            BoundedOperationKind::AllowedCustom { index, namespace } => {
                if namespace == self.operation_namespace && (index as usize)
                    < self.allowed_custom_commands.len() {
                    self.allowed_custom_commands[index as usize].as_slice()
                } else {
                    CUSTOM_COMMAND.as_bytes()
                }
            },
            BoundedOperationKind::CustomCommand => CUSTOM_COMMAND.as_bytes(),
        }
    }

    /// Offers a completed sample to the buffer, without waiting.
    pub(crate) fn offer(&mut self, sample: RequestMetricSample)
        requires
            old(self).wf(),
        ensures
            final(self).wf(),
            final(self)@ == old(self)@.offered(sample@),
    {
        if self.samples.len() < self.capacity {
            self.samples.push_back(sample);
            increment_buffered(&mut self.buffered_samples);
        } else {
            saturating_add_u64(&mut self.dropped_samples, 1);
        }
        proof {
            assert(self@ =~= old(self)@.offered(sample@));
        }
    }

    /// Takes at most `max_samples` samples out of the buffer, oldest first, and reports how many
    /// were dropped since the last drain.
    pub fn drain(&mut self, max_samples: usize) -> (result: Result<
        RequestMetricDrain,
        RequestMetricsDrainError,
    >)
        requires
            old(self).wf(),
        ensures
            final(self).wf(),
            match result {
                Ok(drain) => {
                    &&& !old(self)@.consumer_poisoned
                    &&& drain@ == old(self)@.drain_report(max_samples)
                    &&& final(self)@ == old(self)@.drained(max_samples)
                },
                Err(error) => {
                    &&& error == RequestMetricsDrainError::ConsumerPoisoned
                    &&& old(self)@.consumer_poisoned
                    &&& final(self)@ == old(self)@
                },
            },
    {
        if self.consumer_poisoned {
            return Err(RequestMetricsDrainError::ConsumerPoisoned);
        }
        let ghost before = self@;
        let initial = buffered_count_snapshot(self.buffered_samples);
        let expected = if max_samples < initial {
            max_samples
        } else {
            initial
        };
        let mut samples: Vec<RequestMetricSample> = Vec::with_capacity(expected);
        let mut taken: usize = 0;
        while taken < max_samples
            invariant_except_break
                taken == samples@.len(),
            invariant
                taken <= max_samples,
                self.wf(),
                before == old(self)@,
                before.valid(),
                !before.consumer_poisoned,
                samples@.len() <= max_samples,
                samples@.len() <= before.buffered.len(),
                self@ == (StateView { buffered: before.buffered.skip(samples@.len() as int), ..before }),
                crate::metrics::sample::samples_view(samples@) == before.buffered.take(
                    samples@.len() as int,
                ),
            ensures
                samples@.len() == before.drain_count(max_samples),
            decreases max_samples - taken,
        {
            let ghost count = samples@.len() as int;
            let ghost queued = self.samples@;
            match self.samples.pop_front() {
                Some(sample) => {
                    decrement_buffered(&mut self.buffered_samples);
                    proof {
                        assert(before.buffered.skip(count)[0] == sample@);
                        let left = before.buffered.skip(count);
                        assert(left == crate::metrics::sample::samples_view(queued));
                        assert forall|i: int| 0 <= i < left.len() - 1 implies self@.buffered[i]
                            == left[i + 1] by {
                            assert(self.samples@[i] == queued[i + 1]);
                        }
                        assert(self@.buffered =~= before.buffered.skip(count + 1));
                    }
                    samples.push(sample);
                    proof {
                        assert(crate::metrics::sample::samples_view(samples@)
                            =~= before.buffered.take(count + 1));
                        assert(self@ =~= (StateView {
                            buffered: before.buffered.skip(samples@.len() as int),
                            ..before
                        }));
                    }
                    taken = taken + 1;
                },
                None => {
                    assert(before.buffered.skip(count).len() == 0);
                    break;
                },
            }
        }
        let dropped_samples = self.dropped_samples;
        self.dropped_samples = 0;
        let remaining_samples = buffered_count_snapshot(self.buffered_samples) as u64;
        let drain = RequestMetricDrain::new(samples, dropped_samples, remaining_samples);
        proof {
            assert(self@ =~= before.drained(max_samples));
            assert(drain@ =~= before.drain_report(max_samples));
        }
        Ok(drain)
    }

    /// Notes that a consumer panicked while it drained: later drains are refused.
    pub fn poison_consumer(&mut self)
        requires
            old(self).wf(),
        ensures
            final(self).wf(),
            final(self)@ == (StateView { consumer_poisoned: true, ..old(self)@ }),
    {
        self.consumer_poisoned = true;
    }

    /// Whether a configuration has the parts that a state cannot change.
    pub(crate) fn has_same_fixed_configuration(
        &self,
        capacity: usize,
        allowed_custom_commands: &Vec<Vec<u8>>,
    ) -> (same: bool)
        ensures
            same == (self@.capacity == capacity && self@.allowed
                == crate::metrics::allow_list::vecs_view(allowed_custom_commands@)),
    {
        self.capacity == capacity && same_names(
            &self.allowed_custom_commands,
            allowed_custom_commands,
        )
    }

    /// Changes the sampling percentage.
    pub(crate) fn update_sample_percentage(&mut self, sample_percentage: u32)
        requires
            old(self).wf(),
            sample_percentage <= MAX_SAMPLE_PERCENTAGE,
        ensures
            final(self).wf(),
            final(self)@ == (StateView { sample_percentage, ..old(self)@ }),
    {
        self.sample_percentage = sample_percentage;
    }
}

/// What is known of a state that was just made: an empty buffer, nothing dropped, the allow-list
/// of the given names.
pub open spec fn is_fresh_state(
    state: StateView,
    sample_percentage: u32,
    capacity: usize,
    commands: Seq<Seq<u8>>,
    namespace: u64,
) -> bool {
    &&& state.sample_percentage == sample_percentage
    &&& state.buffered == Seq::<SampleView>::empty()
    &&& state.dropped_samples == 0
    &&& crate::metrics::allow_list::is_allow_list_of(state.allowed, commands)
    &&& state.capacity == capacity
    &&& state.namespace == namespace
    &&& !state.consumer_poisoned
    &&& state.next_request == 0
}

/// How a sampling decision comes about: at 0 no request is sampled and at 100 every one, without
/// a draw; in between the drawn percentile decides.
pub open spec fn sampling_outcome<S: Sampler>(
    sample_percentage: u32,
    before: S,
    after: S,
    sampled: bool,
) -> bool {
    if sample_percentage == 0 {
        !sampled && after == before
    } else if sample_percentage >= MAX_SAMPLE_PERCENTAGE {
        sampled && after == before
    } else {
        exists|percentile: u32| #[trigger]
            S::can_draw(before, after, percentile) && sampled == selected(
                sample_percentage,
                percentile,
            )
    }
}

/// The identity of a custom command in a state with this allow-list and this namespace.
pub open spec fn custom_identity(
    allowed: Seq<Seq<u8>>,
    namespace: u64,
    operation: Seq<u8>,
) -> BoundedOperationKind {
    let name = crate::metrics::byte_order::upper_bytes(operation);
    if allowed.contains(name) {
        BoundedOperationKind::AllowedCustom {
            index: allowed.index_of(name) as u8,
            namespace,
        }
    } else {
        BoundedOperationKind::CustomCommand
    }
}

proof fn lemma_slot_is_unique(names: Seq<Seq<u8>>, name: Seq<u8>, slot: int)
    requires
        crate::metrics::byte_order::strictly_ascending(names),
        0 <= slot < names.len(),
        names[slot] == name,
    ensures
        names.contains(name),
        names.index_of(name) == slot,
{
    let other = names.index_of(name);
    assert(0 <= other < names.len() && names[other] == name);
    crate::metrics::byte_order::lemma_irreflexive(name);
    if other < slot {
        assert(crate::metrics::byte_order::comes_before(names[other], names[slot]));
    } else if slot < other {
        assert(crate::metrics::byte_order::comes_before(names[slot], names[other]));
    }
}

fn same_names(a: &Vec<Vec<u8>>, b: &Vec<Vec<u8>>) -> (same: bool)
    ensures
        same == (crate::metrics::allow_list::vecs_view(a@)
            == crate::metrics::allow_list::vecs_view(b@)),
{
    let ghost left = crate::metrics::allow_list::vecs_view(a@);
    let ghost right = crate::metrics::allow_list::vecs_view(b@);
    if a.len() != b.len() {
        assert(left.len() != right.len());
        return false;
    }
    let mut i: usize = 0;
    while i < a.len()
        invariant
            i <= a@.len(),
            a@.len() == b@.len(),
            left == crate::metrics::allow_list::vecs_view(a@),
            right == crate::metrics::allow_list::vecs_view(b@),
            forall|j: int| 0 <= j < i ==> left[j] == right[j],
        decreases a@.len() - i,
    {
        match crate::metrics::byte_order::compare_bytes(a[i].as_slice(), b[i].as_slice()) {
            crate::metrics::byte_order::Relation::Same => {},
            _ => {
                assert(left[i as int] != right[i as int]);
                return false;
            },
        }
        assert(left[i as int] == right[i as int]);
        i = i + 1;
    }
    assert(left =~= right);
    true
}

/// The percentiles below the percentage are sampled, and no others.
pub proof fn law_percentiles_below_the_percentage_are_sampled(
    sample_percentage: u32,
    percentile: u32,
)
    ensures
        percentile < sample_percentage ==> selected(sample_percentage, percentile),
        percentile >= sample_percentage ==> !selected(sample_percentage, percentile),
{
}

/// At 0 nothing is sampled and at 100 everything is, and the sampler is not asked; in between a
/// percentile is drawn, and the request is sampled exactly where it is below the percentage.
pub proof fn law_sampling_decides_by_one_draw<S: Sampler>(
    sample_percentage: u32,
    before: S,
    after: S,
    sampled: bool,
)
    ensures
        sample_percentage == 0 ==> (sampling_outcome(sample_percentage, before, after, sampled)
            <==> !sampled && after == before),
        sample_percentage >= 100 ==> (sampling_outcome(sample_percentage, before, after, sampled)
            <==> sampled && after == before),
        0 < sample_percentage < 100 && sampling_outcome(sample_percentage, before, after, sampled)
            ==> exists|percentile: u32| #[trigger]
            S::can_draw(before, after, percentile) && sampled == (percentile < sample_percentage),
{
}

/// A selected request is timed by the clock of its state from that instant on, carries the namespace
/// of the state, and gets the next number; nothing else of the state changes.
pub proof fn law_selection_takes_the_next_number(state: StateView, instant: tokio::time::Instant)
    ensures
        state.selected_at(instant).started_at == state.clock.shows(instant),
        state.selected_at(instant).clock == state.clock,
        state.selected_at(instant).namespace == state.namespace,
        state.selected_at(instant).number == state.next_request,
        state.next_request < u64::MAX ==> state.after_selection().next_request
            == state.next_request + 1,
        state.after_selection() == (StateView {
            next_request: state.after_selection().next_request,
            ..state
        }),
        state.after_choice(true) == state.after_selection(),
        state.after_choice(false) == state,
{
}

/// A sample that is offered is buffered as the last where there is room, and counted as dropped
/// where there is none; nothing else of the state changes.
pub proof fn law_offer_is_exact(state: StateView, sample: SampleView)
    ensures
        state.buffered.len() < state.capacity ==> state.offered(sample) == (StateView {
            buffered: state.buffered + seq![sample],
            ..state
        }),
        state.buffered.len() >= state.capacity && state.dropped_samples < u64::MAX ==> state.offered(
            sample,
        ) == (StateView { dropped_samples: (state.dropped_samples + 1) as u64, ..state }),
        state.buffered.len() >= state.capacity && state.dropped_samples == u64::MAX
            ==> state.offered(sample) == state,
{
    assert(state.buffered.push(sample) =~= state.buffered + seq![sample]);
}

/// A drain takes as many samples as were asked for, or all where there are fewer, from the oldest on;
/// it reports the drops and how many samples are left, and changes nothing else of the state.
pub proof fn law_drain_is_exact(state: StateView, max_samples: usize)
    requires
        state.valid(),
    ensures
        ({
            let report = state.drain_report(max_samples);
            let taken = report.samples.len() as int;
            &&& max_samples <= state.buffered.len() ==> taken == max_samples
            &&& max_samples > state.buffered.len() ==> taken == state.buffered.len()
            &&& forall|i: int|
                0 <= i < taken ==> #[trigger] report.samples[i] == state.buffered[i]
            &&& report.dropped_samples == state.dropped_samples
            &&& report.remaining_samples == state.buffered.len() - taken
            &&& report.has_more <==> state.buffered.len() > taken
            &&& state.drained(max_samples) == (StateView {
                buffered: state.buffered.subrange(taken, state.buffered.len() as int),
                dropped_samples: 0,
                ..state
            })
        }),
{
    let taken = state.drain_report(max_samples).samples.len() as int;
    assert(state.drained(max_samples).buffered =~= state.buffered.subrange(
        taken,
        state.buffered.len() as int,
    ));
}

/// A new state has the percentage, the capacity and the names that it was made with, the namespace
/// that it was given, and nothing buffered or dropped.
pub proof fn law_new_state_is_empty(
    state: StateView,
    sample_percentage: u32,
    capacity: usize,
    commands: Seq<Seq<u8>>,
    namespace: u64,
    name: Seq<u8>,
)
    requires
        is_fresh_state(state, sample_percentage, capacity, commands, namespace),
    ensures
        state.sample_percentage == sample_percentage,
        state.capacity == capacity,
        state.namespace == namespace,
        state.allowed.contains(name) <==> commands.contains(name),
        crate::metrics::byte_order::strictly_ascending(state.allowed),
        state.buffered.len() == 0,
        state.dropped_samples == 0,
        !state.consumer_poisoned,
        state.next_request == 0,
{
}

/// A custom command that is listed is known by the slot of its upper case in this state, and any
/// other by the fallback.
pub proof fn law_custom_commands_are_known_by_their_slot(
    allowed: Seq<Seq<u8>>,
    namespace: u64,
    operation: Seq<u8>,
    slot: int,
)
    requires
        crate::metrics::byte_order::strictly_ascending(allowed),
        allowed.len() <= 64,
    ensures
        0 <= slot < allowed.len() && allowed[slot] == crate::metrics::byte_order::upper_bytes(
            operation,
        ) ==> (custom_identity(allowed, namespace, operation) matches
            BoundedOperationKind::AllowedCustom { index, namespace: owner } && index == slot && owner
            == namespace),
        (forall|i: int|
            0 <= i < allowed.len() ==> #[trigger] allowed[i]
                != crate::metrics::byte_order::upper_bytes(operation)) ==> custom_identity(
            allowed,
            namespace,
            operation,
        ) == BoundedOperationKind::CustomCommand,
{
    let name = crate::metrics::byte_order::upper_bytes(operation);
    if 0 <= slot < allowed.len() && allowed[slot] == name {
        lemma_slot_is_unique(allowed, name, slot);
    }
}

/// The random sampler can draw each of the percentiles from 0 to 99, and no other.
pub proof fn law_random_percentiles(
    before: ThreadLocalSampler,
    after: ThreadLocalSampler,
    percentile: u32,
)
    ensures
        ThreadLocalSampler::can_draw(before, after, percentile) <==> percentile <= 99,
{
}

} // verus!
