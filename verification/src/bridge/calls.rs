//! The order of the calls that complete callbacks and fail them.
//!
//! Each sequence is told how its last call came out and says which one is next.

use vstd::prelude::*;

use crate::bridge::methods::{
    completion_method, decode_completion, AnswerError, JavaReturn, RegistryMethod,
};
use crate::callback::completion::JavaCompletionOutcome;

verus! {

/// How a call came out.
#[derive(Clone, Copy, Debug, PartialEq, Eq, Structural)]
pub enum CallResult {
    Succeeded,
    Failed,
    Returned { answer: JavaReturn },
}

/// How many local references a frame is opened for.
pub const LOCAL_FRAME_CAPACITY: i32 = 4;

/// What the description of an exception names as its place when a sweep failed.
pub const SWEEP_PLACE: &'static str = "fail_all_call_java";

/// An argument of a call.
#[derive(Clone, Copy, Debug, PartialEq, Eq, Structural)]
pub enum JavaArgument {
    Long { long: i64 },
    Int { number: i32 },
    /// The string that was made of the message.
    Message,
    /// The object that was made of the response.
    Response,
}

impl JavaArgument {
    /// How a type signature writes the argument.
    pub open spec fn descriptor(self) -> Seq<char> {
        match self {
            JavaArgument::Long { .. } => "J"@,
            JavaArgument::Int { .. } => "I"@,
            JavaArgument::Message => "Ljava/lang/String;"@,
            JavaArgument::Response => "Ljava/lang/Object;"@,
        }
    }
}

/// A call of a method of the callback registry, with what is handed over.
#[derive(Clone, Copy, Debug, PartialEq, Eq, Structural)]
pub enum RegistryCall {
    /// Fail all pending callbacks with the message.
    FailAll,
    /// Complete a callback with the response.
    CompleteWithValue { callback_id: i64, detailed: bool },
    /// Complete a callback with an error code and the message.
    CompleteWithError { callback_id: i64, error_code: i32, detailed: bool },
}

impl RegistryCall {
    /// The method that is called.
    pub open spec fn called(self) -> RegistryMethod {
        match self {
            RegistryCall::FailAll => RegistryMethod::FailAllWithError,
            RegistryCall::CompleteWithValue { detailed, .. } =>
                crate::bridge::methods::completing_method(false, detailed),
            RegistryCall::CompleteWithError { detailed, .. } =>
                crate::bridge::methods::completing_method(true, detailed),
        }
    }

    /// The method that is called.
    pub fn method(self) -> (method: RegistryMethod)
        ensures
            method == self.called(),
    {
        match self {
            RegistryCall::FailAll => RegistryMethod::FailAllWithError,
            RegistryCall::CompleteWithValue { detailed, .. } => completion_method(false, detailed),
            RegistryCall::CompleteWithError { detailed, .. } => completion_method(true, detailed),
        }
    }

    /// What is handed to the method, in this order.
    pub open spec fn handed(self) -> Seq<JavaArgument> {
        match self {
            RegistryCall::FailAll => seq![JavaArgument::Message],
            RegistryCall::CompleteWithValue { callback_id, .. } => seq![
                JavaArgument::Long { long: callback_id },
                JavaArgument::Response,
            ],
            RegistryCall::CompleteWithError { callback_id, error_code, .. } => seq![
                JavaArgument::Long { long: callback_id },
                JavaArgument::Int { number: error_code },
                JavaArgument::Message,
            ],
        }
    }

    /// What is handed to the method, in this order.
    pub fn arguments(self) -> (arguments: Vec<JavaArgument>)
        ensures
            arguments@ == self.handed(),
    {
        let mut arguments: Vec<JavaArgument> = Vec::new();
        match self {
            RegistryCall::FailAll => {
                arguments.push(JavaArgument::Message);
            },
            RegistryCall::CompleteWithValue { callback_id, .. } => {
                arguments.push(JavaArgument::Long { long: callback_id });
                arguments.push(JavaArgument::Response);
            },
            RegistryCall::CompleteWithError { callback_id, error_code, .. } => {
                arguments.push(JavaArgument::Long { long: callback_id });
                arguments.push(JavaArgument::Int { number: error_code });
                arguments.push(JavaArgument::Message);
            },
        }
        proof {
            assert(arguments@ =~= self.handed());
        }
        arguments
    }
}

/// How a type signature writes arguments, one after the other.
pub open spec fn descriptors(arguments: Seq<JavaArgument>) -> Seq<char>
    decreases arguments.len(),
{
    if arguments.len() == 0 {
        seq![]
    } else {
        arguments[0].descriptor() + descriptors(arguments.drop_first())
    }
}

/// How a type signature writes what a method returns.
pub open spec fn return_descriptor(kind: crate::bridge::methods::ReturnKind) -> Seq<char> {
    match kind {
        crate::bridge::methods::ReturnKind::Int => "I"@,
        crate::bridge::methods::ReturnKind::Boolean => "Z"@,
        crate::bridge::methods::ReturnKind::Void => "V"@,
    }
}

/// Every call hands over what the signature of its method asks for, and expects what it returns.
pub proof fn law_calls_fit_their_signatures(call: RegistryCall)
    ensures
        call.called().signature_text() == "("@ + descriptors(call.handed()) + ")"@
            + return_descriptor(call.called().return_kind()),
{
    reveal_with_fuel(descriptors, 4);
    reveal_strlit("(");
    reveal_strlit(")");
    reveal_strlit("J");
    reveal_strlit("I");
    reveal_strlit("Z");
    reveal_strlit("V");
    reveal_strlit("Ljava/lang/String;");
    reveal_strlit("Ljava/lang/Object;");
    reveal_strlit("(JLjava/lang/Object;)Z");
    reveal_strlit("(JLjava/lang/Object;)I");
    reveal_strlit("(JILjava/lang/String;)Z");
    reveal_strlit("(JILjava/lang/String;)I");
    reveal_strlit("(Ljava/lang/String;)V");
    assert(call.called().signature_text() =~= "("@ + descriptors(call.handed()) + ")"@
        + return_descriptor(call.called().return_kind()));
}

/// An error with which a callback is completed.
#[derive(Clone, Copy, Debug, PartialEq, Eq)]
pub struct ErrorReport<'a> {
    pub callback_id: i64,
    pub error_code: i32,
    pub message: &'a str,
    /// Whether a detailed answer is asked for.
    pub detailed: bool,
}

impl<'a> ErrorReport<'a> {
    /// The call that completes the callback.
    pub open spec fn completing(self) -> RegistryCall {
        RegistryCall::CompleteWithError {
            callback_id: self.callback_id,
            error_code: self.error_code,
            detailed: self.detailed,
        }
    }

    /// The call that completes the callback.
    fn call(self) -> (call: RegistryCall)
        ensures
            call == self.completing(),
    {
        RegistryCall::CompleteWithError {
            callback_id: self.callback_id,
            error_code: self.error_code,
            detailed: self.detailed,
        }
    }
}

/// Where failing all pending callbacks stands: the call that is next.
#[derive(Clone, Copy, Debug, PartialEq, Eq)]
pub enum SweepStage<'a> {
    LoadMethods,
    PushFrame { capacity: i32 },
    /// Make a string of this text.
    NewMessage { text: &'a str },
    Call { call: RegistryCall },
    /// Describe and clear the exception of the failed call, which belongs to no callback.
    ClearException { place: &'static str },
    PopFrame { swept: bool },
    Done { swept: bool },
}

/// The call that comes next when all pending callbacks are failed with this message. Without
/// methods nothing can be done; a frame that was opened is closed on every way.
pub open spec fn sweep_after<'a>(
    stage: SweepStage<'a>,
    error_message: &'a str,
    result: CallResult,
) -> SweepStage<'a> {
    match stage {
        SweepStage::LoadMethods => if result == CallResult::Failed {
            SweepStage::Done { swept: false }
        } else {
            SweepStage::PushFrame { capacity: LOCAL_FRAME_CAPACITY }
        },
        SweepStage::PushFrame { .. } => SweepStage::NewMessage { text: error_message },
        SweepStage::NewMessage { .. } => if result == CallResult::Failed {
            SweepStage::PopFrame { swept: false }
        } else {
            SweepStage::Call { call: RegistryCall::FailAll }
        },
        SweepStage::Call { .. } => if result == CallResult::Failed {
            SweepStage::ClearException { place: SWEEP_PLACE }
        } else {
            SweepStage::PopFrame { swept: true }
        },
        SweepStage::ClearException { .. } => SweepStage::PopFrame { swept: false },
        SweepStage::PopFrame { swept } => SweepStage::Done { swept },
        SweepStage::Done { swept } => SweepStage::Done { swept },
    }
}

/// Fails all pending callbacks, call by call: says what comes after a call that came out so.
pub fn fail_all_pending_futures<'a>(
    stage: SweepStage<'a>,
    error_message: &'a str,
    result: CallResult,
) -> (next: SweepStage<'a>)
    ensures
        next == sweep_after(stage, error_message, result),
{
    let failed = result == CallResult::Failed;
    match stage {
        SweepStage::LoadMethods => {
            if failed {
                SweepStage::Done { swept: false }
            } else {
                SweepStage::PushFrame { capacity: LOCAL_FRAME_CAPACITY }
            }
        },
        SweepStage::PushFrame { .. } => SweepStage::NewMessage { text: error_message },
        SweepStage::NewMessage { .. } => {
            if failed {
                SweepStage::PopFrame { swept: false }
            } else {
                SweepStage::Call { call: RegistryCall::FailAll }
            }
        },
        SweepStage::Call { .. } => {
            if failed {
                SweepStage::ClearException { place: SWEEP_PLACE }
            } else {
                SweepStage::PopFrame { swept: true }
            }
        },
        SweepStage::ClearException { .. } => SweepStage::PopFrame { swept: false },
        SweepStage::PopFrame { swept } => SweepStage::Done { swept },
        SweepStage::Done { swept } => SweepStage::Done { swept },
    }
}

/// How many calls a sweep can still make.
pub open spec fn sweep_left(stage: SweepStage) -> nat {
    match stage {
        SweepStage::LoadMethods => 6,
        SweepStage::PushFrame { .. } => 5,
        SweepStage::NewMessage { .. } => 4,
        SweepStage::Call { .. } => 3,
        SweepStage::ClearException { .. } => 2,
        SweepStage::PopFrame { .. } => 1,
        SweepStage::Done { .. } => 0,
    }
}

/// Whether the local frame of a sweep is open.
pub open spec fn sweep_frame_open(stage: SweepStage) -> bool {
    match stage {
        SweepStage::LoadMethods => false,
        SweepStage::PushFrame { .. } => false,
        SweepStage::Done { .. } => false,
        _ => true,
    }
}

/// A sweep ends, closes the frame that it opened, hands over the message that it was given, and has
/// swept only where its call succeeded.
pub proof fn law_sweep_ends(stage: SweepStage, error_message: &str, result: CallResult)
    ensures
        !(stage is Done) ==> sweep_left(sweep_after(stage, error_message, result)) < sweep_left(
            stage,
        ),
        sweep_frame_open(stage) && !sweep_frame_open(sweep_after(stage, error_message, result))
            ==> stage is PopFrame,
        sweep_after(stage, error_message, result) == (SweepStage::PopFrame { swept: true }) ==> stage
            is Call && result != CallResult::Failed,
        sweep_after(stage, error_message, result) matches SweepStage::NewMessage { text } ==> text
            == error_message,
        sweep_after(stage, error_message, result) matches SweepStage::Call { call } ==> stage
            is NewMessage && result != CallResult::Failed && call == RegistryCall::FailAll,
{
}

/// Where rejecting a callback at once stands: the call that is next.
#[derive(Clone, Copy, Debug, PartialEq, Eq)]
pub enum RejectStage<'a> {
    LoadMethods,
    /// Make a string of this text.
    NewMessage { text: &'a str },
    Call { call: RegistryCall },
    ClearException,
    Done { rejected: bool },
}

/// The call that comes next when a callback is rejected on the thread that asked for it.
pub open spec fn reject_after<'a>(
    stage: RejectStage<'a>,
    report: ErrorReport<'a>,
    result: CallResult,
) -> RejectStage<'a> {
    match stage {
        RejectStage::LoadMethods => if result == CallResult::Failed {
            RejectStage::Done { rejected: false }
        } else {
            RejectStage::NewMessage { text: report.message }
        },
        RejectStage::NewMessage { .. } => if result == CallResult::Failed {
            RejectStage::Done { rejected: false }
        } else {
            RejectStage::Call { call: report.completing() }
        },
        RejectStage::Call { .. } => if result == CallResult::Failed {
            RejectStage::ClearException
        } else {
            RejectStage::Done { rejected: true }
        },
        RejectStage::ClearException => RejectStage::Done { rejected: false },
        RejectStage::Done { rejected } => RejectStage::Done { rejected },
    }
}

/// Rejects a callback on the calling thread, call by call: says what comes after a call that came
/// out so.
pub fn complete_error_sync<'a>(
    stage: RejectStage<'a>,
    report: ErrorReport<'a>,
    result: CallResult,
) -> (next: RejectStage<'a>)
    ensures
        next == reject_after(stage, report, result),
{
    let failed = result == CallResult::Failed;
    match stage {
        RejectStage::LoadMethods => {
            if failed {
                RejectStage::Done { rejected: false }
            } else {
                RejectStage::NewMessage { text: report.message }
            }
        },
        RejectStage::NewMessage { .. } => {
            if failed {
                RejectStage::Done { rejected: false }
            } else {
                RejectStage::Call { call: report.call() }
            }
        },
        RejectStage::Call { .. } => {
            if failed {
                RejectStage::ClearException
            } else {
                RejectStage::Done { rejected: true }
            }
        },
        RejectStage::ClearException => RejectStage::Done { rejected: false },
        RejectStage::Done { rejected } => RejectStage::Done { rejected },
    }
}

/// Why a callback could not be completed with an error.
#[derive(Clone, Copy, Debug, PartialEq, Eq, Structural)]
pub enum DeliveryError {
    LoadMethods,
    PushFrame,
    NewMessage,
    Call,
    Answer { error: AnswerError },
    PopFrame,
}

/// Where completing a callback with an error stands: the call that is next.
#[derive(Clone, Copy, Debug, PartialEq, Eq)]
pub enum ErrorDeliveryStage<'a> {
    LoadMethods,
    PushFrame { capacity: i32 },
    /// Make a string of this text.
    NewMessage { text: &'a str },
    Call { call: RegistryCall },
    PopFrame { completion: Result<JavaCompletionOutcome, DeliveryError> },
    Done { completion: Result<JavaCompletionOutcome, DeliveryError> },
}

/// What the answer to a completion comes to.
pub open spec fn answered_completion(detailed: bool, result: CallResult) -> Result<
    JavaCompletionOutcome,
    DeliveryError,
> {
    match result {
        CallResult::Returned { answer } => match crate::bridge::methods::answered_outcome(
            detailed,
            answer,
        ) {
            Ok(outcome) => Ok(outcome),
            Err(error) => Err(DeliveryError::Answer { error }),
        },
        CallResult::Failed => Err(DeliveryError::Call),
        CallResult::Succeeded => Err(DeliveryError::Answer { error: AnswerError::WrongType }),
    }
}

/// The call that comes next when a callback is completed with an error. A frame that cannot be
/// closed makes the completion fail, whatever it came to.
pub open spec fn error_delivery_after<'a>(
    stage: ErrorDeliveryStage<'a>,
    report: ErrorReport<'a>,
    result: CallResult,
) -> ErrorDeliveryStage<'a> {
    match stage {
        ErrorDeliveryStage::LoadMethods => if result == CallResult::Failed {
            ErrorDeliveryStage::Done { completion: Err(DeliveryError::LoadMethods) }
        } else {
            ErrorDeliveryStage::PushFrame { capacity: LOCAL_FRAME_CAPACITY }
        },
        ErrorDeliveryStage::PushFrame { .. } => if result == CallResult::Failed {
            ErrorDeliveryStage::Done { completion: Err(DeliveryError::PushFrame) }
        } else {
            ErrorDeliveryStage::NewMessage { text: report.message }
        },
        ErrorDeliveryStage::NewMessage { .. } => if result == CallResult::Failed {
            ErrorDeliveryStage::PopFrame { completion: Err(DeliveryError::NewMessage) }
        } else {
            ErrorDeliveryStage::Call { call: report.completing() }
        },
        ErrorDeliveryStage::Call { .. } => ErrorDeliveryStage::PopFrame {
            completion: answered_completion(report.detailed, result),
        },
        ErrorDeliveryStage::PopFrame { completion } => if result == CallResult::Failed {
            ErrorDeliveryStage::Done { completion: Err(DeliveryError::PopFrame) }
        } else {
            ErrorDeliveryStage::Done { completion }
        },
        ErrorDeliveryStage::Done { completion } => ErrorDeliveryStage::Done { completion },
    }
}

/// Completes a callback with an error, call by call: says what comes after a call that came out so.
pub fn complete_java_callback_with_error_code_for_native<'a>(
    stage: ErrorDeliveryStage<'a>,
    report: ErrorReport<'a>,
    result: CallResult,
) -> (next: ErrorDeliveryStage<'a>)
    ensures
        next == error_delivery_after(stage, report, result),
{
    let failed = result == CallResult::Failed;
    match stage {
        ErrorDeliveryStage::LoadMethods => {
            if failed {
                ErrorDeliveryStage::Done { completion: Err(DeliveryError::LoadMethods) }
            } else {
                ErrorDeliveryStage::PushFrame { capacity: LOCAL_FRAME_CAPACITY }
            }
        },
        ErrorDeliveryStage::PushFrame { .. } => {
            if failed {
                ErrorDeliveryStage::Done { completion: Err(DeliveryError::PushFrame) }
            } else {
                ErrorDeliveryStage::NewMessage { text: report.message }
            }
        },
        ErrorDeliveryStage::NewMessage { .. } => {
            if failed {
                ErrorDeliveryStage::PopFrame { completion: Err(DeliveryError::NewMessage) }
            } else {
                ErrorDeliveryStage::Call { call: report.call() }
            }
        },
        ErrorDeliveryStage::Call { .. } => ErrorDeliveryStage::PopFrame {
            completion: value_delivery(report.detailed, result),
        },
        ErrorDeliveryStage::PopFrame { completion } => {
            if failed {
                ErrorDeliveryStage::Done { completion: Err(DeliveryError::PopFrame) }
            } else {
                ErrorDeliveryStage::Done { completion }
            }
        },
        ErrorDeliveryStage::Done { completion } => ErrorDeliveryStage::Done { completion },
    }
}

/// What the answer to a completion comes to.
fn value_delivery(detailed: bool, result: CallResult) -> (completion: Result<
    JavaCompletionOutcome,
    DeliveryError,
>)
    ensures
        completion == answered_completion(detailed, result),
{
    match result {
        CallResult::Returned { answer } => match decode_completion(detailed, answer) {
            Ok(outcome) => Ok(outcome),
            Err(error) => Err(DeliveryError::Answer { error }),
        },
        CallResult::Failed => Err(DeliveryError::Call),
        CallResult::Succeeded => Err(DeliveryError::Answer { error: AnswerError::WrongType }),
    }
}

/// What completing a callback with an error tells its caller: only whether it failed.
pub fn complete_java_callback_with_error_code(
    completion: Result<JavaCompletionOutcome, DeliveryError>,
) -> (told: Result<(), DeliveryError>)
    ensures
        told == (match completion {
            Ok(_) => Ok::<(), DeliveryError>(()),
            Err(error) => Err(error),
        }),
{
    match completion {
        Ok(_) => Ok(()),
        Err(error) => Err(error),
    }
}

/// Where completing a callback with a value stands: the call that is next.
#[derive(Clone, Copy, Debug, PartialEq, Eq)]
pub enum ValueDeliveryStage {
    LoadMethods,
    Call { call: RegistryCall },
    Done { completion: Result<JavaCompletionOutcome, DeliveryError> },
}

/// The call that comes next when a callback is completed with a value.
pub open spec fn value_delivery_after(
    stage: ValueDeliveryStage,
    callback_id: i64,
    detailed: bool,
    result: CallResult,
) -> ValueDeliveryStage {
    match stage {
        ValueDeliveryStage::LoadMethods => if result == CallResult::Failed {
            ValueDeliveryStage::Done { completion: Err(DeliveryError::LoadMethods) }
        } else {
            ValueDeliveryStage::Call {
                call: RegistryCall::CompleteWithValue { callback_id, detailed },
            }
        },
        ValueDeliveryStage::Call { .. } => ValueDeliveryStage::Done {
            completion: answered_completion(detailed, result),
        },
        ValueDeliveryStage::Done { completion } => ValueDeliveryStage::Done { completion },
    }
}

/// Completes a callback with a value, call by call: says what comes after a call that came out so.
pub fn complete_java_callback(
    stage: ValueDeliveryStage,
    callback_id: i64,
    detailed: bool,
    result: CallResult,
) -> (next: ValueDeliveryStage)
    ensures
        next == value_delivery_after(stage, callback_id, detailed, result),
{
    match stage {
        ValueDeliveryStage::LoadMethods => {
            if result == CallResult::Failed {
                ValueDeliveryStage::Done { completion: Err(DeliveryError::LoadMethods) }
            } else {
                ValueDeliveryStage::Call {
                    call: RegistryCall::CompleteWithValue { callback_id, detailed },
                }
            }
        },
        ValueDeliveryStage::Call { .. } => ValueDeliveryStage::Done {
            completion: value_delivery(detailed, result),
        },
        ValueDeliveryStage::Done { completion } => ValueDeliveryStage::Done { completion },
    }
}

/// Where a sweep stands after calls that came out so, one after the other.
pub open spec fn sweep_run<'a>(
    stage: SweepStage<'a>,
    error_message: &'a str,
    results: Seq<CallResult>,
) -> SweepStage<'a>
    decreases results.len(),
{
    if results.len() == 0 {
        stage
    } else {
        sweep_run(
            sweep_after(stage, error_message, results[0]),
            error_message,
            results.drop_first(),
        )
    }
}

/// A sweep that has made all its calls is done, and has swept exactly where the methods were
/// loaded, the message was made and the call succeeded.
pub proof fn law_sweep_outcome(error_message: &str, results: Seq<CallResult>)
    requires
        results.len() >= 6,
    ensures
        sweep_run(SweepStage::LoadMethods, error_message, results) == (SweepStage::Done {
            swept: results[0] != CallResult::Failed && results[2] != CallResult::Failed
                && results[3] != CallResult::Failed,
        }),
{
    reveal_with_fuel(sweep_run, 7);
    let one = results.drop_first();
    let four = one.drop_first().drop_first().drop_first();
    let five = four.drop_first();
    lemma_done_sweep_stays(false, error_message, one);
    lemma_done_sweep_stays(false, error_message, four);
    lemma_done_sweep_stays(true, error_message, five);
    lemma_done_sweep_stays(false, error_message, five.drop_first());
}

proof fn lemma_done_sweep_stays(swept: bool, error_message: &str, results: Seq<CallResult>)
    ensures
        sweep_run(SweepStage::Done { swept }, error_message, results) == (SweepStage::Done { swept }),
    decreases results.len(),
{
    if results.len() > 0 {
        lemma_done_sweep_stays(swept, error_message, results.drop_first());
    }
}

/// Where a rejection stands after calls that came out so, one after the other.
pub open spec fn reject_run<'a>(
    stage: RejectStage<'a>,
    report: ErrorReport<'a>,
    results: Seq<CallResult>,
) -> RejectStage<'a>
    decreases results.len(),
{
    if results.len() == 0 {
        stage
    } else {
        reject_run(reject_after(stage, report, results[0]), report, results.drop_first())
    }
}

/// A rejection that has made all its calls is done, and has rejected the callback exactly where
/// all of them succeeded.
pub proof fn law_reject_outcome(report: ErrorReport, results: Seq<CallResult>)
    requires
        results.len() >= 4,
    ensures
        reject_run(RejectStage::LoadMethods, report, results) == (RejectStage::Done {
            rejected: results[0] != CallResult::Failed && results[1] != CallResult::Failed
                && results[2] != CallResult::Failed,
        }),
{
    reveal_with_fuel(reject_run, 5);
    let one = results.drop_first();
    let two = one.drop_first();
    let three = two.drop_first();
    lemma_done_rejection_stays(false, report, one);
    lemma_done_rejection_stays(false, report, two);
    lemma_done_rejection_stays(true, report, three);
    lemma_done_rejection_stays(false, report, three.drop_first());
}

proof fn lemma_done_rejection_stays(rejected: bool, report: ErrorReport, results: Seq<CallResult>)
    ensures
        reject_run(RejectStage::Done { rejected }, report, results) == (RejectStage::Done { rejected }),
    decreases results.len(),
{
    if results.len() > 0 {
        lemma_done_rejection_stays(rejected, report, results.drop_first());
    }
}

/// Where completing a callback with an error stands after calls that came out so.
pub open spec fn error_delivery_run<'a>(
    stage: ErrorDeliveryStage<'a>,
    report: ErrorReport<'a>,
    results: Seq<CallResult>,
) -> ErrorDeliveryStage<'a>
    decreases results.len(),
{
    if results.len() == 0 {
        stage
    } else {
        error_delivery_run(
            error_delivery_after(stage, report, results[0]),
            report,
            results.drop_first(),
        )
    }
}

/// What completing a callback with an error comes to, from how its calls came out.
pub open spec fn error_delivery_outcome(detailed: bool, results: Seq<CallResult>) -> Result<
    JavaCompletionOutcome,
    DeliveryError,
> {
    if results[0] == CallResult::Failed {
        Err(DeliveryError::LoadMethods)
    } else if results[1] == CallResult::Failed {
        Err(DeliveryError::PushFrame)
    } else if results[2] == CallResult::Failed {
        if results[3] == CallResult::Failed {
            Err(DeliveryError::PopFrame)
        } else {
            Err(DeliveryError::NewMessage)
        }
    } else if results[4] == CallResult::Failed {
        Err(DeliveryError::PopFrame)
    } else {
        answered_completion(detailed, results[3])
    }
}

/// Completing a callback with an error ends, and the first call that failed decides, but for the
/// frame: one that cannot be closed makes the completion fail, whatever came before.
pub proof fn law_error_delivery_outcome(report: ErrorReport, results: Seq<CallResult>)
    requires
        results.len() >= 5,
    ensures
        error_delivery_run(ErrorDeliveryStage::LoadMethods, report, results) == (
        ErrorDeliveryStage::Done { completion: error_delivery_outcome(report.detailed, results) }),
{
    reveal_with_fuel(error_delivery_run, 6);
    let one = results.drop_first();
    let two = one.drop_first();
    let four = two.drop_first().drop_first();
    let completion = error_delivery_outcome(report.detailed, results);
    lemma_done_delivery_stays(report, completion, one);
    lemma_done_delivery_stays(report, completion, two);
    lemma_done_delivery_stays(report, completion, four);
    lemma_done_delivery_stays(report, completion, four.drop_first());
}

proof fn lemma_done_delivery_stays(
    report: ErrorReport,
    completion: Result<JavaCompletionOutcome, DeliveryError>,
    results: Seq<CallResult>,
)
    ensures
        error_delivery_run(ErrorDeliveryStage::Done { completion }, report, results) == (
        ErrorDeliveryStage::Done { completion }),
    decreases results.len(),
{
    if results.len() > 0 {
        lemma_done_delivery_stays(report, completion, results.drop_first());
    }
}

/// A callback counts as completed with an error only where its method was called and answered with
/// an outcome.
pub proof fn law_completion_comes_from_an_answer(detailed: bool, results: Seq<CallResult>)
    requires
        results.len() >= 5,
    ensures
        error_delivery_outcome(detailed, results) is Ok ==> results[3] is Returned,
{
}

/// Where completing a callback with a value stands after calls that came out so.
pub open spec fn value_delivery_run(
    stage: ValueDeliveryStage,
    callback_id: i64,
    detailed: bool,
    results: Seq<CallResult>,
) -> ValueDeliveryStage
    decreases results.len(),
{
    if results.len() == 0 {
        stage
    } else {
        value_delivery_run(
            value_delivery_after(stage, callback_id, detailed, results[0]),
            callback_id,
            detailed,
            results.drop_first(),
        )
    }
}

/// Completing a callback with a value ends: what its method answered decides, where the methods
/// were loaded.
pub proof fn law_value_delivery_outcome(
    callback_id: i64,
    detailed: bool,
    results: Seq<CallResult>,
)
    requires
        results.len() >= 2,
    ensures
        value_delivery_run(ValueDeliveryStage::LoadMethods, callback_id, detailed, results) == (
        ValueDeliveryStage::Done {
            completion: if results[0] == CallResult::Failed {
                Err(DeliveryError::LoadMethods)
            } else {
                answered_completion(detailed, results[1])
            },
        }),
{
    reveal_with_fuel(value_delivery_run, 3);
    let completion = if results[0] == CallResult::Failed {
        Err(DeliveryError::LoadMethods)
    } else {
        answered_completion(detailed, results[1])
    };
    let one = results.drop_first();
    lemma_done_value_delivery_stays(callback_id, detailed, completion, one);
    lemma_done_value_delivery_stays(callback_id, detailed, completion, one.drop_first());
}

proof fn lemma_done_value_delivery_stays(
    callback_id: i64,
    detailed: bool,
    completion: Result<JavaCompletionOutcome, DeliveryError>,
    results: Seq<CallResult>,
)
    ensures
        value_delivery_run(ValueDeliveryStage::Done { completion }, callback_id, detailed, results)
            == (ValueDeliveryStage::Done { completion }),
    decreases results.len(),
{
    if results.len() > 0 {
        lemma_done_value_delivery_stays(callback_id, detailed, completion, results.drop_first());
    }
}

/// An error reaches Java as it was reported, on either way: a string is made of its message, and
/// the callback is completed with its code and that string, by the method that answers as asked.
pub proof fn law_errors_are_handed_over_as_reported<'a>(
    delivery: ErrorDeliveryStage<'a>,
    rejection: RejectStage<'a>,
    report: ErrorReport<'a>,
    result: CallResult,
)
    ensures
        error_delivery_after(delivery, report, result) matches ErrorDeliveryStage::NewMessage {
            text,
        } ==> text == report.message,
        reject_after(rejection, report, result) matches RejectStage::NewMessage { text } ==> text
            == report.message,
        error_delivery_after(delivery, report, result) matches ErrorDeliveryStage::Call { call }
            ==> delivery is NewMessage && result != CallResult::Failed && call.called()
            == crate::bridge::methods::completing_method(true, report.detailed) && call.handed()
            == seq![
            JavaArgument::Long { long: report.callback_id },
            JavaArgument::Int { number: report.error_code },
            JavaArgument::Message,
        ],
        reject_after(rejection, report, result) matches RejectStage::Call { call } ==> rejection
            is NewMessage && result != CallResult::Failed && call == report.completing(),
{
}

/// A value is handed over under its callback, by the method that answers as asked.
pub proof fn law_values_are_handed_over_as_asked(
    stage: ValueDeliveryStage,
    callback_id: i64,
    detailed: bool,
    result: CallResult,
)
    ensures
        value_delivery_after(stage, callback_id, detailed, result) matches ValueDeliveryStage::Call {
            call,
        } ==> stage is LoadMethods && result != CallResult::Failed && call.called()
            == crate::bridge::methods::completing_method(false, detailed) && call.handed() == seq![
            JavaArgument::Long { long: callback_id },
            JavaArgument::Response,
        ],
{
}

/// What the answer to a completion comes to: the outcome that it says, and otherwise why there is
/// none.
pub proof fn law_completions_are_what_was_answered(
    detailed: bool,
    result: CallResult,
    outcome: JavaCompletionOutcome,
)
    ensures
        answered_completion(detailed, result) == Ok::<_, DeliveryError>(outcome) <==> (result matches
            CallResult::Returned { answer } && crate::bridge::methods::answered_outcome(
            detailed,
            answer,
        ) == Ok::<_, AnswerError>(outcome)),
        result == CallResult::Failed ==> answered_completion(detailed, result) == Err::<
            JavaCompletionOutcome,
            _,
        >(DeliveryError::Call),
        result == CallResult::Succeeded ==> answered_completion(detailed, result) == Err::<
            JavaCompletionOutcome,
            _,
        >(DeliveryError::Answer { error: AnswerError::WrongType }),
        result matches CallResult::Returned { answer } ==> (
        crate::bridge::methods::answered_outcome(detailed, answer) matches Err(error)
            ==> answered_completion(detailed, result) == Err::<JavaCompletionOutcome, _>(
            DeliveryError::Answer { error },
        )),
{
}

/// The steps of a sweep: a frame for four references, the message, the call that fails all, and the
/// frame again. A failed call is described as belonging to the sweep and cleared first.
pub proof fn law_sweep_steps(error_message: &str, good: CallResult)
    requires
        good != CallResult::Failed,
    ensures
        sweep_run(SweepStage::LoadMethods, error_message, seq![CallResult::Failed]) == (
        SweepStage::Done { swept: false }),
        sweep_run(SweepStage::LoadMethods, error_message, seq![good]) == (SweepStage::PushFrame {
            capacity: 4,
        }),
        sweep_run(SweepStage::LoadMethods, error_message, seq![good, CallResult::Failed]) == (
        SweepStage::NewMessage { text: error_message }),
        sweep_run(SweepStage::LoadMethods, error_message, seq![good, good]) == (
        SweepStage::NewMessage { text: error_message }),
        sweep_run(SweepStage::LoadMethods, error_message, seq![good, good, CallResult::Failed]) == (
        SweepStage::PopFrame { swept: false }),
        sweep_run(SweepStage::LoadMethods, error_message, seq![good, good, good]) == (
        SweepStage::Call { call: RegistryCall::FailAll }),
        sweep_run(SweepStage::LoadMethods, error_message, seq![good, good, good, good]) == (
        SweepStage::PopFrame { swept: true }),
        sweep_run(
            SweepStage::LoadMethods,
            error_message,
            seq![good, good, good, CallResult::Failed],
        ) == (SweepStage::ClearException { place: "fail_all_call_java" }),
        sweep_run(
            SweepStage::LoadMethods,
            error_message,
            seq![good, good, good, CallResult::Failed, good],
        ) == (SweepStage::PopFrame { swept: false }),
{
    reveal_with_fuel(sweep_run, 6);
}

/// The steps of a rejection: the message and the call. A failed call is cleared.
pub proof fn law_reject_steps(report: ErrorReport, good: CallResult)
    requires
        good != CallResult::Failed,
    ensures
        reject_run(RejectStage::LoadMethods, report, seq![CallResult::Failed]) == (
        RejectStage::Done { rejected: false }),
        reject_run(RejectStage::LoadMethods, report, seq![good]) == (RejectStage::NewMessage {
            text: report.message,
        }),
        reject_run(RejectStage::LoadMethods, report, seq![good, CallResult::Failed]) == (
        RejectStage::Done { rejected: false }),
        reject_run(RejectStage::LoadMethods, report, seq![good, good]) == (RejectStage::Call {
            call: RegistryCall::CompleteWithError {
                callback_id: report.callback_id,
                error_code: report.error_code,
                detailed: report.detailed,
            },
        }),
        reject_run(RejectStage::LoadMethods, report, seq![good, good, CallResult::Failed])
            == RejectStage::ClearException,
        reject_run(RejectStage::LoadMethods, report, seq![good, good, good]) == (RejectStage::Done {
            rejected: true,
        }),
        reject_after(RejectStage::ClearException, report, good) == (RejectStage::Done {
            rejected: false,
        }),
{
    reveal_with_fuel(reject_run, 5);
}

/// The steps of completing a callback with an error: a frame for four references, the message, the
/// call, and the frame again. The first failure decides, but for a frame that cannot be closed.
pub proof fn law_error_delivery_steps(report: ErrorReport, good: CallResult)
    requires
        good != CallResult::Failed,
    ensures
        ({
            let start = ErrorDeliveryStage::LoadMethods;
            let bad = CallResult::Failed;
            &&& error_delivery_run(start, report, seq![bad]) == (ErrorDeliveryStage::Done {
                completion: Err(DeliveryError::LoadMethods),
            })
            &&& error_delivery_run(start, report, seq![good]) == (ErrorDeliveryStage::PushFrame {
                capacity: 4,
            })
            &&& error_delivery_run(start, report, seq![good, bad]) == (ErrorDeliveryStage::Done {
                completion: Err(DeliveryError::PushFrame),
            })
            &&& error_delivery_run(start, report, seq![good, good]) == (
            ErrorDeliveryStage::NewMessage { text: report.message })
            &&& error_delivery_run(start, report, seq![good, good, bad, good]) == (
            ErrorDeliveryStage::Done { completion: Err(DeliveryError::NewMessage) })
            &&& error_delivery_run(start, report, seq![good, good, bad, bad]) == (
            ErrorDeliveryStage::Done { completion: Err(DeliveryError::PopFrame) })
            &&& error_delivery_run(start, report, seq![good, good, good]) == (
            ErrorDeliveryStage::Call {
                call: RegistryCall::CompleteWithError {
                    callback_id: report.callback_id,
                    error_code: report.error_code,
                    detailed: report.detailed,
                },
            })
            &&& error_delivery_run(start, report, seq![good, good, good, bad, good]) == (
            ErrorDeliveryStage::Done { completion: Err(DeliveryError::Call) })
            &&& error_delivery_run(start, report, seq![good, good, good, good, good]) == (
            ErrorDeliveryStage::Done { completion: answered_completion(report.detailed, good) })
            &&& error_delivery_run(start, report, seq![good, good, good, good, bad]) == (
            ErrorDeliveryStage::Done { completion: Err(DeliveryError::PopFrame) })
        }),
{
    reveal_with_fuel(error_delivery_run, 6);
}

/// What each call of the registry hands to which method.
pub proof fn law_calls_and_their_arguments(callback_id: i64, error_code: i32, detailed: bool)
    ensures
        RegistryCall::FailAll.called() == RegistryMethod::FailAllWithError,
        RegistryCall::FailAll.handed() == seq![JavaArgument::Message],
        ({
            let call = RegistryCall::CompleteWithValue { callback_id, detailed };
            &&& call.called() == (if detailed {
                RegistryMethod::CompleteCallbackForNative
            } else {
                RegistryMethod::CompleteCallback
            })
            &&& call.handed() == seq![
                JavaArgument::Long { long: callback_id },
                JavaArgument::Response,
            ]
        }),
        ({
            let call = RegistryCall::CompleteWithError { callback_id, error_code, detailed };
            &&& call.called() == (if detailed {
                RegistryMethod::CompleteCallbackWithErrorCodeForNative
            } else {
                RegistryMethod::CompleteCallbackWithErrorCode
            })
            &&& call.handed() == seq![
                JavaArgument::Long { long: callback_id },
                JavaArgument::Int { number: error_code },
                JavaArgument::Message,
            ]
        }),
{
}

} // verus!
