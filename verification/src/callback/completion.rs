//! How a callback was completed, and what that means for the request.

use vstd::prelude::*;

use crate::callback::coordination::CallbackCoordinationFinish;
use crate::metrics::phase::RequestMetricResult;
use crate::text::append_signed_decimal;

verus! {

/// What the other side answers to a completion.
#[derive(Clone, Copy, Debug, PartialEq, Eq, Structural)]
pub enum JavaCompletionOutcome {
    Completed,
    Timeout,
    Cancelled,
    Failure,
    TimeoutMarkMissed,
    NativeTimeout,
}

/// An answer that is none of the known ones.
#[derive(Clone, Copy, Debug, PartialEq, Eq, Structural)]
pub struct UnknownOutcome {
    pub value: i32,
}

impl UnknownOutcome {
    /// The message that is shown for the error.
    pub fn message(&self) -> (message: String)
        ensures
            message@ == "Unknown Java callback completion outcome: "@ + crate::text::signed_decimal(
                self.value as int,
            ),
    {
        let mut text = "Unknown Java callback completion outcome: ".to_owned();
        append_signed_decimal(&mut text, self.value);
        text
    }
}

/// The outcome that a number stands for.
pub open spec fn outcome_of(value: i32) -> Result<JavaCompletionOutcome, UnknownOutcome> {
    if value == 0 {
        Ok(JavaCompletionOutcome::Completed)
    } else if value == 1 {
        Ok(JavaCompletionOutcome::Timeout)
    } else if value == 2 {
        Ok(JavaCompletionOutcome::Cancelled)
    } else if value == 3 {
        Ok(JavaCompletionOutcome::Failure)
    } else if value == 4 {
        Ok(JavaCompletionOutcome::TimeoutMarkMissed)
    } else if value == 5 {
        Ok(JavaCompletionOutcome::NativeTimeout)
    } else {
        Err(UnknownOutcome { value })
    }
}

impl TryFrom<i32> for JavaCompletionOutcome {
    type Error = UnknownOutcome;

    fn try_from(value: i32) -> (outcome: Result<JavaCompletionOutcome, UnknownOutcome>) {
        match value {
            0 => Ok(JavaCompletionOutcome::Completed),
            1 => Ok(JavaCompletionOutcome::Timeout),
            2 => Ok(JavaCompletionOutcome::Cancelled),
            3 => Ok(JavaCompletionOutcome::Failure),
            4 => Ok(JavaCompletionOutcome::TimeoutMarkMissed),
            5 => Ok(JavaCompletionOutcome::NativeTimeout),
            _ => Err(UnknownOutcome { value }),
        }
    }
}

impl vstd::std_specs::convert::TryFromSpecImpl<i32> for JavaCompletionOutcome {
    open spec fn obeys_try_from_spec() -> bool {
        true
    }

    open spec fn try_from_spec(value: i32) -> Result<JavaCompletionOutcome, UnknownOutcome> {
        outcome_of(value)
    }
}

/// Why a callback could not be completed.
#[derive(Clone, Copy, Debug, PartialEq, Eq, Structural)]
pub enum CallbackFailure {
    Conversion,
    JniDelivery,
    Channel,
}

/// How a callback was completed.
#[derive(Clone, Copy, Debug, PartialEq, Eq, Structural)]
pub enum CallbackCompletion {
    Java(JavaCompletionOutcome),
    TimedOutByMarker,
    Failed(CallbackFailure),
}

/// What a completion does about a timeout.
pub open spec fn coordination_of(completion: CallbackCompletion) -> CallbackCoordinationFinish {
    match completion {
        CallbackCompletion::Java(JavaCompletionOutcome::Timeout) => CallbackCoordinationFinish::AwaitTimeoutMark,
        CallbackCompletion::Java(JavaCompletionOutcome::Failure) => CallbackCoordinationFinish::CheckForTimeout,
        CallbackCompletion::Failed(_) => CallbackCoordinationFinish::CheckForTimeout,
        _ => CallbackCoordinationFinish::Skip,
    }
}

/// What a completion does about a timeout.
pub fn callback_coordination_finish(completion: CallbackCompletion) -> (coordination:
    CallbackCoordinationFinish)
    ensures
        coordination == coordination_of(completion),
{
    match completion {
        CallbackCompletion::Java(outcome) => match outcome {
            JavaCompletionOutcome::Timeout => CallbackCoordinationFinish::AwaitTimeoutMark,
            JavaCompletionOutcome::Failure => CallbackCoordinationFinish::CheckForTimeout,
            _ => CallbackCoordinationFinish::Skip,
        },
        CallbackCompletion::Failed(_) => CallbackCoordinationFinish::CheckForTimeout,
        CallbackCompletion::TimedOutByMarker => CallbackCoordinationFinish::Skip,
    }
}

/// How a request ended whose callback was completed this way, where no timeout was marked.
pub open spec fn classification(
    command_succeeded: bool,
    completion: CallbackCompletion,
) -> RequestMetricResult {
    match completion {
        CallbackCompletion::Java(JavaCompletionOutcome::Completed) => if command_succeeded {
            RequestMetricResult::Success
        } else {
            RequestMetricResult::Failure
        },
        CallbackCompletion::Java(JavaCompletionOutcome::Failure) => RequestMetricResult::Failure,
        CallbackCompletion::Java(JavaCompletionOutcome::Cancelled) => RequestMetricResult::Cancelled,
        CallbackCompletion::Java(_) => RequestMetricResult::Timeout,
        CallbackCompletion::TimedOutByMarker => RequestMetricResult::Timeout,
        CallbackCompletion::Failed(_) => RequestMetricResult::Failure,
    }
}

/// How a request ended whose callback was completed this way, where no timeout was marked.
pub fn classify_callback_completion(
    command_succeeded: bool,
    completion: CallbackCompletion,
) -> (result: RequestMetricResult)
    ensures
        result == classification(command_succeeded, completion),
{
    match completion {
        CallbackCompletion::Java(outcome) => match outcome {
            JavaCompletionOutcome::Completed => {
                if command_succeeded {
                    RequestMetricResult::Success
                } else {
                    RequestMetricResult::Failure
                }
            },
            JavaCompletionOutcome::Failure => RequestMetricResult::Failure,
            JavaCompletionOutcome::Cancelled => RequestMetricResult::Cancelled,
            JavaCompletionOutcome::Timeout => RequestMetricResult::Timeout,
            JavaCompletionOutcome::TimeoutMarkMissed => RequestMetricResult::Timeout,
            JavaCompletionOutcome::NativeTimeout => RequestMetricResult::Timeout,
        },
        CallbackCompletion::TimedOutByMarker => RequestMetricResult::Timeout,
        CallbackCompletion::Failed(_) => RequestMetricResult::Failure,
    }
}

/// A request succeeded only where the command did and its callback took the value.
pub proof fn law_success_needs_both(command_succeeded: bool, completion: CallbackCompletion)
    ensures
        classification(command_succeeded, completion) == RequestMetricResult::Success <==> (
        command_succeeded && completion == CallbackCompletion::Java(
            JavaCompletionOutcome::Completed,
        )),
{
}

/// The terminal result of a request whose callback was completed without a marked timeout. It timed
/// out exactly where the marker or the other side says so, it was cancelled exactly where the other
/// side says so, it succeeded exactly where the command did and its value was taken, and it failed
/// in all other cases.
pub proof fn law_terminal_results(command_succeeded: bool, completion: CallbackCompletion)
    ensures
        classification(command_succeeded, completion) == RequestMetricResult::Timeout <==> ({
            ||| completion == CallbackCompletion::TimedOutByMarker
            ||| completion == CallbackCompletion::Java(JavaCompletionOutcome::Timeout)
            ||| completion == CallbackCompletion::Java(JavaCompletionOutcome::TimeoutMarkMissed)
            ||| completion == CallbackCompletion::Java(JavaCompletionOutcome::NativeTimeout)
        }),
        classification(command_succeeded, completion) == RequestMetricResult::Cancelled
            <==> completion == CallbackCompletion::Java(JavaCompletionOutcome::Cancelled),
        classification(command_succeeded, completion) == RequestMetricResult::Success <==> (
        command_succeeded && completion == CallbackCompletion::Java(
            JavaCompletionOutcome::Completed,
        )),
        classification(command_succeeded, completion) == RequestMetricResult::Failure <==> ({
            ||| completion is Failed
            ||| completion == CallbackCompletion::Java(JavaCompletionOutcome::Failure)
            ||| !command_succeeded && completion == CallbackCompletion::Java(
                JavaCompletionOutcome::Completed,
            )
        }),
{
}

/// A completion waits for a timeout mark exactly where the other side says that the command timed
/// out, and it looks for one exactly where the other side or this side failed.
pub proof fn law_timeouts_are_looked_for_after_failures(completion: CallbackCompletion)
    ensures
        coordination_of(completion) == CallbackCoordinationFinish::AwaitTimeoutMark <==> completion
            == CallbackCompletion::Java(JavaCompletionOutcome::Timeout),
        coordination_of(completion) == CallbackCoordinationFinish::CheckForTimeout <==> (completion
            is Failed || completion == CallbackCompletion::Java(JavaCompletionOutcome::Failure)),
        coordination_of(completion) == CallbackCoordinationFinish::Skip <==> ({
            ||| completion == CallbackCompletion::TimedOutByMarker
            ||| completion == CallbackCompletion::Java(JavaCompletionOutcome::Completed)
            ||| completion == CallbackCompletion::Java(JavaCompletionOutcome::Cancelled)
            ||| completion == CallbackCompletion::Java(JavaCompletionOutcome::TimeoutMarkMissed)
            ||| completion == CallbackCompletion::Java(JavaCompletionOutcome::NativeTimeout)
        }),
{
}

/// Each outcome has one number, and a number that stands for none is handed back.
pub proof fn law_outcomes_have_their_numbers(value: i32)
    ensures
        outcome_of(value) == Ok::<_, UnknownOutcome>(JavaCompletionOutcome::Completed) <==> value
            == 0,
        outcome_of(value) == Ok::<_, UnknownOutcome>(JavaCompletionOutcome::Timeout) <==> value == 1,
        outcome_of(value) == Ok::<_, UnknownOutcome>(JavaCompletionOutcome::Cancelled) <==> value
            == 2,
        outcome_of(value) == Ok::<_, UnknownOutcome>(JavaCompletionOutcome::Failure) <==> value == 3,
        outcome_of(value) == Ok::<_, UnknownOutcome>(JavaCompletionOutcome::TimeoutMarkMissed)
            <==> value == 4,
        outcome_of(value) == Ok::<_, UnknownOutcome>(JavaCompletionOutcome::NativeTimeout)
            <==> value == 5,
        value < 0 || value > 5 ==> outcome_of(value) == Err::<JavaCompletionOutcome, _>(
            UnknownOutcome { value },
        ),
{
}

} // verus!
