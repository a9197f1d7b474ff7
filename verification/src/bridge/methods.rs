//! The methods that complete callbacks, and what they answer.

use vstd::prelude::*;

use crate::callback::completion::{JavaCompletionOutcome, UnknownOutcome};

verus! {

/// A static method of the callback registry.
#[derive(Clone, Copy, Debug, PartialEq, Eq, Structural)]
pub enum RegistryMethod {
    CompleteCallback,
    CompleteCallbackForNative,
    CompleteCallbackWithErrorCode,
    CompleteCallbackWithErrorCodeForNative,
    FailAllWithError,
}

/// What a method returns.
#[derive(Clone, Copy, Debug, PartialEq, Eq, Structural)]
pub enum ReturnKind {
    Int,
    Boolean,
    Void,
}

impl RegistryMethod {
    /// The name of the method.
    pub open spec fn name_text(self) -> Seq<char> {
        match self {
            RegistryMethod::CompleteCallback => "completeCallback"@,
            RegistryMethod::CompleteCallbackForNative => "completeCallbackForNative"@,
            RegistryMethod::CompleteCallbackWithErrorCode => "completeCallbackWithErrorCode"@,
            RegistryMethod::CompleteCallbackWithErrorCodeForNative => "completeCallbackWithErrorCodeForNative"@,
            RegistryMethod::FailAllWithError => "failAllWithError"@,
        }
    }

    /// The name of the method.
    pub fn name(self) -> (name: &'static str)
        ensures
            name@ == self.name_text(),
    {
        match self {
            RegistryMethod::CompleteCallback => "completeCallback",
            RegistryMethod::CompleteCallbackForNative => "completeCallbackForNative",
            RegistryMethod::CompleteCallbackWithErrorCode => "completeCallbackWithErrorCode",
            RegistryMethod::CompleteCallbackWithErrorCodeForNative => "completeCallbackWithErrorCodeForNative",
            RegistryMethod::FailAllWithError => "failAllWithError",
        }
    }

    /// The type signature of the method.
    pub open spec fn signature_text(self) -> Seq<char> {
        match self {
            RegistryMethod::CompleteCallback => "(JLjava/lang/Object;)Z"@,
            RegistryMethod::CompleteCallbackForNative => "(JLjava/lang/Object;)I"@,
            RegistryMethod::CompleteCallbackWithErrorCode => "(JILjava/lang/String;)Z"@,
            RegistryMethod::CompleteCallbackWithErrorCodeForNative => "(JILjava/lang/String;)I"@,
            RegistryMethod::FailAllWithError => "(Ljava/lang/String;)V"@,
        }
    }

    /// The type signature of the method.
    pub fn signature(self) -> (signature: &'static str)
        ensures
            signature@ == self.signature_text(),
    {
        match self {
            RegistryMethod::CompleteCallback => "(JLjava/lang/Object;)Z",
            RegistryMethod::CompleteCallbackForNative => "(JLjava/lang/Object;)I",
            RegistryMethod::CompleteCallbackWithErrorCode => "(JILjava/lang/String;)Z",
            RegistryMethod::CompleteCallbackWithErrorCodeForNative => "(JILjava/lang/String;)I",
            RegistryMethod::FailAllWithError => "(Ljava/lang/String;)V",
        }
    }

    /// What the method returns.
    pub open spec fn return_kind(self) -> ReturnKind {
        match self {
            RegistryMethod::CompleteCallback => ReturnKind::Boolean,
            RegistryMethod::CompleteCallbackForNative => ReturnKind::Int,
            RegistryMethod::CompleteCallbackWithErrorCode => ReturnKind::Boolean,
            RegistryMethod::CompleteCallbackWithErrorCodeForNative => ReturnKind::Int,
            RegistryMethod::FailAllWithError => ReturnKind::Void,
        }
    }

    /// What the method returns.
    pub fn answer_kind(self) -> (kind: ReturnKind)
        ensures
            kind == self.return_kind(),
    {
        match self {
            RegistryMethod::CompleteCallback => ReturnKind::Boolean,
            RegistryMethod::CompleteCallbackForNative => ReturnKind::Int,
            RegistryMethod::CompleteCallbackWithErrorCode => ReturnKind::Boolean,
            RegistryMethod::CompleteCallbackWithErrorCodeForNative => ReturnKind::Int,
            RegistryMethod::FailAllWithError => ReturnKind::Void,
        }
    }
}

/// The method that completes a callback: with a value or with an error, and with a detailed answer
/// where the request is sampled.
pub open spec fn completing_method(error: bool, detailed: bool) -> RegistryMethod {
    if error {
        if detailed {
            RegistryMethod::CompleteCallbackWithErrorCodeForNative
        } else {
            RegistryMethod::CompleteCallbackWithErrorCode
        }
    } else if detailed {
        RegistryMethod::CompleteCallbackForNative
    } else {
        RegistryMethod::CompleteCallback
    }
}

/// The method that completes a callback.
pub fn completion_method(error: bool, detailed: bool) -> (method: RegistryMethod)
    ensures
        method == completing_method(error, detailed),
{
    if error {
        if detailed {
            RegistryMethod::CompleteCallbackWithErrorCodeForNative
        } else {
            RegistryMethod::CompleteCallbackWithErrorCode
        }
    } else if detailed {
        RegistryMethod::CompleteCallbackForNative
    } else {
        RegistryMethod::CompleteCallback
    }
}

/// What a method answered.
#[derive(Clone, Copy, Debug, PartialEq, Eq, Structural)]
pub enum JavaReturn {
    Int { value: i32 },
    Boolean { flag: bool },
    Other,
}

/// Why an answer does not say how a callback was completed.
#[derive(Clone, Copy, Debug, PartialEq, Eq, Structural)]
pub enum AnswerError {
    /// The answer has another type than the method promises.
    WrongType,
    /// The answer is a number that stands for no outcome.
    Unknown { outcome: UnknownOutcome },
}

/// How a callback was completed, as the answer says: a detailed answer is the number of an outcome,
/// a plain one says whether the callback took the result.
pub open spec fn answered_outcome(detailed: bool, answer: JavaReturn) -> Result<
    JavaCompletionOutcome,
    AnswerError,
> {
    if detailed {
        match answer {
            JavaReturn::Int { value } => match crate::callback::completion::outcome_of(value) {
                Ok(outcome) => Ok(outcome),
                Err(outcome) => Err(AnswerError::Unknown { outcome }),
            },
            _ => Err(AnswerError::WrongType),
        }
    } else {
        match answer {
            JavaReturn::Boolean { flag } => if flag {
                Ok(JavaCompletionOutcome::Completed)
            } else {
                Ok(JavaCompletionOutcome::Failure)
            },
            _ => Err(AnswerError::WrongType),
        }
    }
}

/// How a callback was completed, as the answer says.
pub fn decode_completion(detailed: bool, answer: JavaReturn) -> (outcome: Result<
    JavaCompletionOutcome,
    AnswerError,
>)
    ensures
        outcome == answered_outcome(detailed, answer),
{
    if detailed {
        match answer {
            JavaReturn::Int { value } => match JavaCompletionOutcome::try_from(value) {
                Ok(outcome) => Ok(outcome),
                Err(outcome) => Err(AnswerError::Unknown { outcome }),
            },
            _ => Err(AnswerError::WrongType),
        }
    } else {
        match answer {
            JavaReturn::Boolean { flag } => {
                if flag {
                    Ok(JavaCompletionOutcome::Completed)
                } else {
                    Ok(JavaCompletionOutcome::Failure)
                }
            },
            _ => Err(AnswerError::WrongType),
        }
    }
}

/// The answer that a completing method promises can always be read, but for a number that stands
/// for no outcome.
pub proof fn law_promised_answers_are_read(error: bool, detailed: bool, answer: JavaReturn)
    requires
        completing_method(error, detailed).return_kind() == ReturnKind::Int ==> answer is Int,
        completing_method(error, detailed).return_kind() == ReturnKind::Boolean ==> answer
            is Boolean,
    ensures
        answered_outcome(detailed, answer) != Err::<JavaCompletionOutcome, _>(
            AnswerError::WrongType,
        ),
{
}

/// How an answer is read. A plain one says whether the result was taken; a detailed one is the number
/// of the outcome, and a number that stands for none is handed back. An answer of another type than
/// was asked for is none.
pub proof fn law_answers_are_read(value: i32, flag: bool)
    ensures
        answered_outcome(false, JavaReturn::Boolean { flag }) == Ok::<_, AnswerError>(
            if flag {
                JavaCompletionOutcome::Completed
            } else {
                JavaCompletionOutcome::Failure
            },
        ),
        answered_outcome(false, JavaReturn::Int { value }) == Err::<JavaCompletionOutcome, _>(
            AnswerError::WrongType,
        ),
        answered_outcome(true, JavaReturn::Boolean { flag }) == Err::<JavaCompletionOutcome, _>(
            AnswerError::WrongType,
        ),
        answered_outcome(flag, JavaReturn::Other) == Err::<JavaCompletionOutcome, _>(
            AnswerError::WrongType,
        ),
        value < 0 || value > 5 ==> answered_outcome(true, JavaReturn::Int { value }) == Err::<
            JavaCompletionOutcome,
            _,
        >(AnswerError::Unknown { outcome: UnknownOutcome { value } }),
        answered_outcome(true, JavaReturn::Int { value: 0 }) == Ok::<_, AnswerError>(
            JavaCompletionOutcome::Completed,
        ),
        answered_outcome(true, JavaReturn::Int { value: 1 }) == Ok::<_, AnswerError>(
            JavaCompletionOutcome::Timeout,
        ),
        answered_outcome(true, JavaReturn::Int { value: 2 }) == Ok::<_, AnswerError>(
            JavaCompletionOutcome::Cancelled,
        ),
        answered_outcome(true, JavaReturn::Int { value: 3 }) == Ok::<_, AnswerError>(
            JavaCompletionOutcome::Failure,
        ),
        answered_outcome(true, JavaReturn::Int { value: 4 }) == Ok::<_, AnswerError>(
            JavaCompletionOutcome::TimeoutMarkMissed,
        ),
        answered_outcome(true, JavaReturn::Int { value: 5 }) == Ok::<_, AnswerError>(
            JavaCompletionOutcome::NativeTimeout,
        ),
{
}

/// A callback is completed by the method for values or for errors, and by the one that answers with
/// an outcome exactly where a detailed answer is asked for.
pub proof fn law_completing_methods_fit(error: bool, detailed: bool)
    ensures
        completing_method(error, detailed).return_kind() == ReturnKind::Int <==> detailed,
        completing_method(error, detailed).return_kind() == ReturnKind::Boolean <==> !detailed,
        completing_method(false, false).name_text() == "completeCallback"@,
        completing_method(false, true).name_text() == "completeCallbackForNative"@,
        completing_method(true, false).name_text() == "completeCallbackWithErrorCode"@,
        completing_method(true, true).name_text() == "completeCallbackWithErrorCodeForNative"@,
        RegistryMethod::FailAllWithError.name_text() == "failAllWithError"@,
        RegistryMethod::FailAllWithError.return_kind() == ReturnKind::Void,
{
}

/// The methods have the type signatures under which they are looked up.
pub proof fn law_methods_have_their_signatures()
    ensures
        RegistryMethod::CompleteCallback.signature_text() == "(JLjava/lang/Object;)Z"@,
        RegistryMethod::CompleteCallbackForNative.signature_text() == "(JLjava/lang/Object;)I"@,
        RegistryMethod::CompleteCallbackWithErrorCode.signature_text()
            == "(JILjava/lang/String;)Z"@,
        RegistryMethod::CompleteCallbackWithErrorCodeForNative.signature_text()
            == "(JILjava/lang/String;)I"@,
        RegistryMethod::FailAllWithError.signature_text() == "(Ljava/lang/String;)V"@,
{
}

} // verus!
