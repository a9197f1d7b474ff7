//! The phases of a request and the ways in which it can end.

use vstd::prelude::*;

verus! {

/// The number of phases that a sample reports.
pub const REQUEST_METRIC_PHASE_COUNT: usize = 12;

/// A measured interval of a request, in the order in which samples report them.
#[derive(Clone, Copy, Debug, PartialEq, Eq, Structural)]
pub enum RequestMetricPhase {
    JniIngress,
    ClientQueue,
    CommandPrepare,
    ConnectionWait,
    PipelineQueue,
    SocketWrite,
    ResponseWait,
    RetryBackoff,
    CoreDecode,
    CallbackQueue,
    CallbackComplete,
    Total,
}

impl RequestMetricPhase {
    /// The place of the phase in the fixed order, starting at 0.
    pub open spec fn position(self) -> int {
        match self {
            RequestMetricPhase::JniIngress => 0,
            RequestMetricPhase::ClientQueue => 1,
            RequestMetricPhase::CommandPrepare => 2,
            RequestMetricPhase::ConnectionWait => 3,
            RequestMetricPhase::PipelineQueue => 4,
            RequestMetricPhase::SocketWrite => 5,
            RequestMetricPhase::ResponseWait => 6,
            RequestMetricPhase::RetryBackoff => 7,
            RequestMetricPhase::CoreDecode => 8,
            RequestMetricPhase::CallbackQueue => 9,
            RequestMetricPhase::CallbackComplete => 10,
            RequestMetricPhase::Total => 11,
        }
    }

    /// The slot of the phase in an array of phase durations.
    pub fn index(self) -> (index: usize)
        ensures
            index == self.position(),
            index < REQUEST_METRIC_PHASE_COUNT,
    {
        match self {
            RequestMetricPhase::JniIngress => 0,
            RequestMetricPhase::ClientQueue => 1,
            RequestMetricPhase::CommandPrepare => 2,
            RequestMetricPhase::ConnectionWait => 3,
            RequestMetricPhase::PipelineQueue => 4,
            RequestMetricPhase::SocketWrite => 5,
            RequestMetricPhase::ResponseWait => 6,
            RequestMetricPhase::RetryBackoff => 7,
            RequestMetricPhase::CoreDecode => 8,
            RequestMetricPhase::CallbackQueue => 9,
            RequestMetricPhase::CallbackComplete => 10,
            RequestMetricPhase::Total => 11,
        }
    }

    /// The number by which bindings know the phase: 1 for the first one.
    pub fn code(self) -> (code: u8)
        ensures
            code == self.position() + 1,
            1 <= code <= 12,
    {
        self.index() as u8 + 1
    }

    /// Every phase, in the fixed order.
    pub fn all() -> (phases: [RequestMetricPhase; REQUEST_METRIC_PHASE_COUNT])
        ensures
            forall|i: int| 0 <= i < 12 ==> (#[trigger] phases@[i]).position() == i,
    {
        [
            RequestMetricPhase::JniIngress,
            RequestMetricPhase::ClientQueue,
            RequestMetricPhase::CommandPrepare,
            RequestMetricPhase::ConnectionWait,
            RequestMetricPhase::PipelineQueue,
            RequestMetricPhase::SocketWrite,
            RequestMetricPhase::ResponseWait,
            RequestMetricPhase::RetryBackoff,
            RequestMetricPhase::CoreDecode,
            RequestMetricPhase::CallbackQueue,
            RequestMetricPhase::CallbackComplete,
            RequestMetricPhase::Total,
        ]
    }
}

/// A phase is known by its position: no two phases share one.
pub proof fn law_phase_positions_are_distinct(a: RequestMetricPhase, b: RequestMetricPhase)
    ensures
        a.position() == b.position() <==> a == b,
        0 <= a.position() < REQUEST_METRIC_PHASE_COUNT,
{
}

/// How a request ended.
#[derive(Clone, Copy, Debug, PartialEq, Eq, Structural)]
pub enum RequestMetricResult {
    Success,
    Failure,
    Timeout,
    Cancelled,
}

impl RequestMetricResult {
    /// The number by which bindings know the result: 1 for success.
    pub open spec fn number(self) -> int {
        match self {
            RequestMetricResult::Success => 1,
            RequestMetricResult::Failure => 2,
            RequestMetricResult::Timeout => 3,
            RequestMetricResult::Cancelled => 4,
        }
    }

    /// The number by which bindings know the result.
    pub fn code(self) -> (code: u8)
        ensures
            code == self.number(),
    {
        match self {
            RequestMetricResult::Success => 1,
            RequestMetricResult::Failure => 2,
            RequestMetricResult::Timeout => 3,
            RequestMetricResult::Cancelled => 4,
        }
    }
}

/// The phases stand in the order of a request, from the first place to the last.
pub proof fn law_phases_stand_in_order()
    ensures
        0 == RequestMetricPhase::JniIngress.position(),
        RequestMetricPhase::JniIngress.position() < RequestMetricPhase::ClientQueue.position(),
        RequestMetricPhase::ClientQueue.position() < RequestMetricPhase::CommandPrepare.position(),
        RequestMetricPhase::CommandPrepare.position()
            < RequestMetricPhase::ConnectionWait.position(),
        RequestMetricPhase::ConnectionWait.position() < RequestMetricPhase::PipelineQueue.position(),
        RequestMetricPhase::PipelineQueue.position() < RequestMetricPhase::SocketWrite.position(),
        RequestMetricPhase::SocketWrite.position() < RequestMetricPhase::ResponseWait.position(),
        RequestMetricPhase::ResponseWait.position() < RequestMetricPhase::RetryBackoff.position(),
        RequestMetricPhase::RetryBackoff.position() < RequestMetricPhase::CoreDecode.position(),
        RequestMetricPhase::CoreDecode.position() < RequestMetricPhase::CallbackQueue.position(),
        RequestMetricPhase::CallbackQueue.position()
            < RequestMetricPhase::CallbackComplete.position(),
        RequestMetricPhase::CallbackComplete.position() < RequestMetricPhase::Total.position(),
        RequestMetricPhase::Total.position() == 11,
{
}

/// The results have the numbers 1 to 4, in the order of success, failure, timeout and cancellation.
pub proof fn law_results_have_their_numbers()
    ensures
        1 == RequestMetricResult::Success.number(),
        RequestMetricResult::Success.number() < RequestMetricResult::Failure.number(),
        RequestMetricResult::Failure.number() < RequestMetricResult::Timeout.number(),
        RequestMetricResult::Timeout.number() < RequestMetricResult::Cancelled.number(),
        RequestMetricResult::Cancelled.number() == 4,
{
}

} // verus!
