//! Completed samples and the batches in which they are drained.

use vstd::prelude::*;

use crate::metrics::operation::{BoundedOperation, BoundedOperationKind};
use crate::metrics::phase::{RequestMetricPhase, RequestMetricResult, REQUEST_METRIC_PHASE_COUNT};

verus! {

/// What a sample reports.
#[verifier::ext_equal]
pub struct SampleView {
    pub operation: BoundedOperationKind,
    pub result: RequestMetricResult,
    pub attempt_count: u32,
    /// One duration for each phase, in the fixed order; 0 for a phase that was not reached.
    pub phase_nanos: Seq<u64>,
}

/// A completed request.
#[derive(Clone, Debug, PartialEq, Eq)]
pub struct RequestMetricSample {
    operation: BoundedOperation,
    result: RequestMetricResult,
    attempt_count: u32,
    phase_nanos: [u64; REQUEST_METRIC_PHASE_COUNT],
}

impl View for RequestMetricSample {
    type V = SampleView;

    closed spec fn view(&self) -> SampleView {
        SampleView {
            operation: self.operation@,
            result: self.result,
            attempt_count: self.attempt_count,
            phase_nanos: self.phase_nanos@,
        }
    }
}

impl RequestMetricSample {
    /// A sample of its parts.
    pub(crate) fn new(
        operation: BoundedOperation,
        result: RequestMetricResult,
        attempt_count: u32,
        phase_nanos: [u64; REQUEST_METRIC_PHASE_COUNT],
    ) -> (sample: RequestMetricSample)
        ensures
            sample@ == (SampleView {
                operation: operation@,
                result,
                attempt_count,
                phase_nanos: phase_nanos@,
            }),
    {
        RequestMetricSample { operation, result, attempt_count, phase_nanos }
    }

    /// The bounded identity of the request.
    pub fn operation(&self) -> (operation: BoundedOperation)
        ensures
            operation@ == self@.operation,
    {
        self.operation
    }

    /// How the request ended.
    pub fn result(&self) -> (result: RequestMetricResult)
        ensures
            result == self@.result,
    {
        self.result
    }

    /// How often the request was handed to a connection.
    pub fn attempt_count(&self) -> (count: u32)
        ensures
            count == self@.attempt_count,
    {
        self.attempt_count
    }

    /// The durations of all phases, in the fixed order.
    pub fn phase_durations(&self) -> (durations: &[u64; REQUEST_METRIC_PHASE_COUNT])
        ensures
            durations@ == self@.phase_nanos,
    {
        &self.phase_nanos
    }

    /// The duration of a phase.
    pub fn phase_duration(&self, phase: RequestMetricPhase) -> (nanos: u64)
        ensures
            nanos == self@.phase_nanos[phase.position()],
    {
        self.phase_nanos[phase.index()]
    }

    /// The phases that were reached, with their durations, in the fixed order.
    pub fn populated_phase_durations(&self) -> (populated: Vec<(RequestMetricPhase, u64)>)
        ensures
            forall|k: int|
                0 <= k < populated@.len() ==> {
                    let pair = #[trigger] populated@[k];
                    pair.1 != 0 && pair.1 == self@.phase_nanos[pair.0.position()]
                },
            forall|j: int, k: int|
                0 <= j < k < populated@.len() ==> (#[trigger] populated@[j]).0.position() < (
                #[trigger] populated@[k]).0.position(),
            forall|phase: RequestMetricPhase|
                self@.phase_nanos[#[trigger] phase.position()] != 0 ==> populated@.contains(
                    (phase, self@.phase_nanos[phase.position()]),
                ),
    {
        let phases = RequestMetricPhase::all();
        let mut populated: Vec<(RequestMetricPhase, u64)> = Vec::new();
        let mut i: usize = 0;
        while i < REQUEST_METRIC_PHASE_COUNT
            invariant
                i <= REQUEST_METRIC_PHASE_COUNT,
                forall|k: int| 0 <= k < 12 ==> (#[trigger] phases@[k]).position() == k,
                forall|k: int|
                    0 <= k < populated@.len() ==> {
                        let pair = #[trigger] populated@[k];
                        &&& pair.1 != 0
                        &&& pair.1 == self@.phase_nanos[pair.0.position()]
                        &&& pair.0.position() < i
                    },
                forall|j: int, k: int|
                    0 <= j < k < populated@.len() ==> (#[trigger] populated@[j]).0.position() < (
                    #[trigger] populated@[k]).0.position(),
                forall|phase: RequestMetricPhase|
                    phase.position() < i && self@.phase_nanos[#[trigger] phase.position()] != 0
                        ==> populated@.contains((phase, self@.phase_nanos[phase.position()])),
            decreases REQUEST_METRIC_PHASE_COUNT - i,
        {
            let nanos = self.phase_nanos[i];
            let ghost before = populated@;
            if nanos != 0 {
                populated.push((phases[i], nanos));
            }
            proof {
                assert(phases@[i as int].position() == i);
                assert forall|phase: RequestMetricPhase|
                    phase.position() < i + 1 && self@.phase_nanos[#[trigger] phase.position()]
                        != 0 implies populated@.contains(
                    (phase, self@.phase_nanos[phase.position()]),
                ) by {
                    crate::metrics::phase::law_phase_positions_are_distinct(phase, phases@[i as int]);
                    let pair = (phase, self@.phase_nanos[phase.position()]);
                    if phase.position() < i {
                        assert(before.contains(pair));
                        let k = choose|k: int| 0 <= k < before.len() && before[k] == pair;
                        assert(populated@[k] == pair);
                    } else {
                        assert(populated@.last() == pair);
                    }
                }
            }
            i = i + 1;
        }
        proof {
            assert forall|phase: RequestMetricPhase|
                self@.phase_nanos[#[trigger] phase.position()] != 0 implies populated@.contains(
                (phase, self@.phase_nanos[phase.position()]),
            ) by {
                crate::metrics::phase::law_phase_positions_are_distinct(phase, phase);
            }
        }
        populated
    }
}

/// What the samples of a sequence report.
pub open spec fn samples_view(samples: Seq<RequestMetricSample>) -> Seq<SampleView> {
    Seq::new(samples.len(), |i: int| samples[i]@)
}

/// What a drain reports.
#[verifier::ext_equal]
pub struct DrainView {
    pub samples: Seq<SampleView>,
    pub dropped_samples: u64,
    pub remaining_samples: u64,
    pub has_more: bool,
}

/// A batch of drained samples.
#[derive(Clone, Debug, PartialEq, Eq)]
pub struct RequestMetricDrain {
    samples: Vec<RequestMetricSample>,
    dropped_samples: u64,
    remaining_samples: u64,
    has_more: bool,
}

impl View for RequestMetricDrain {
    type V = DrainView;

    closed spec fn view(&self) -> DrainView {
        DrainView {
            samples: samples_view(self.samples@),
            dropped_samples: self.dropped_samples,
            remaining_samples: self.remaining_samples,
            has_more: self.has_more,
        }
    }
}

impl RequestMetricDrain {
    /// A batch of its parts.
    pub(crate) fn new(
        samples: Vec<RequestMetricSample>,
        dropped_samples: u64,
        remaining_samples: u64,
    ) -> (drain: RequestMetricDrain)
        ensures
            drain@ == (DrainView {
                samples: samples_view(samples@),
                dropped_samples,
                remaining_samples,
                has_more: remaining_samples > 0,
            }),
    {
        RequestMetricDrain {
            samples,
            dropped_samples,
            remaining_samples,
            has_more: remaining_samples > 0,
        }
    }

    /// The drained samples, oldest first.
    pub fn samples(&self) -> (samples: &[RequestMetricSample])
        ensures
            samples_view(samples@) == self@.samples,
    {
        self.samples.as_slice()
    }

    /// How many samples were dropped since the last drain.
    pub fn dropped_samples(&self) -> (count: u64)
        ensures
            count == self@.dropped_samples,
    {
        self.dropped_samples
    }

    /// How many samples were left in the buffer.
    pub fn remaining_samples(&self) -> (count: u64)
        ensures
            count == self@.remaining_samples,
    {
        self.remaining_samples
    }

    /// Whether samples were left in the buffer.
    pub fn has_more(&self) -> (more: bool)
        ensures
            more == self@.has_more,
    {
        self.has_more
    }
}

/// Samples show what they report, each in its place.
pub proof fn law_samples_show_themselves(samples: Seq<RequestMetricSample>)
    ensures
        samples_view(samples).len() == samples.len(),
        forall|i: int| 0 <= i < samples.len() ==> #[trigger] samples_view(samples)[i] == samples[i]@,
{
}

} // verus!
