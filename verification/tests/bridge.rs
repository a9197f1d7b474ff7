//! Decisions about calls into the virtual machine, clients and worker threads.

use request_metrics::bridge::caches::{
    get_glide_core_client_cache_safe, get_method_cache, invalidate_jni_caches, CacheSlot,
    CacheStep, CoreClientLookup, CoreClientMethod, MethodLookup, CORE_CLIENT_CLASS, REGISTRY_CLASS,
};
use request_metrics::bridge::calls::{
    complete_error_sync, complete_java_callback, complete_java_callback_with_error_code,
    complete_java_callback_with_error_code_for_native, fail_all_pending_futures, CallResult,
    DeliveryError, ErrorDeliveryStage, ErrorReport, JavaArgument, RegistryCall, RejectStage,
    SweepStage, ValueDeliveryStage,
};
use request_metrics::bridge::clients::{
    connect_failure, ensure_client_for_handle, generate_safe_handle, ClientStep, SafeHandles,
    CLIENT_NOT_FOUND,
};
use request_metrics::bridge::exceptions::{
    describe_pending_java_exception_before_clear, ExceptionDescriptions,
};
use request_metrics::bridge::methods::{
    completion_method, decode_completion, AnswerError, JavaReturn, RegistryMethod, ReturnKind,
};
use request_metrics::bridge::workers::{
    get_callback_worker_threads, max_blocking_threads, parse_count, runtime_worker_threads,
};
use request_metrics::callback::completion::{JavaCompletionOutcome, UnknownOutcome};

const YES: CallResult = CallResult::Succeeded;
const NO: CallResult = CallResult::Failed;

#[test]
fn methods_have_their_names_and_signatures() {
    let methods = [
        (RegistryMethod::CompleteCallback, "completeCallback", "(JLjava/lang/Object;)Z"),
        (
            RegistryMethod::CompleteCallbackForNative,
            "completeCallbackForNative",
            "(JLjava/lang/Object;)I",
        ),
        (
            RegistryMethod::CompleteCallbackWithErrorCode,
            "completeCallbackWithErrorCode",
            "(JILjava/lang/String;)Z",
        ),
        (
            RegistryMethod::CompleteCallbackWithErrorCodeForNative,
            "completeCallbackWithErrorCodeForNative",
            "(JILjava/lang/String;)I",
        ),
        (RegistryMethod::FailAllWithError, "failAllWithError", "(Ljava/lang/String;)V"),
    ];
    for (method, name, signature) in methods {
        assert_eq!(method.name(), name);
        assert_eq!(method.signature(), signature);
        let last = signature.chars().last().unwrap();
        let kind = match last {
            'Z' => ReturnKind::Boolean,
            'I' => ReturnKind::Int,
            _ => ReturnKind::Void,
        };
        assert_eq!(method.answer_kind(), kind);
    }
    assert_eq!(CoreClientMethod::OnNativePush.name(), "onNativePush");
    assert_eq!(CoreClientMethod::OnNativePush.signature(), "(J[B[B[B)V");
    assert_eq!(
        CoreClientMethod::RegisterNativeBufferCleaner.name(),
        "registerNativeBufferCleaner"
    );
    assert_eq!(
        CoreClientMethod::RegisterNativeBufferCleaner.signature(),
        "(Ljava/nio/ByteBuffer;J)V"
    );
}

#[test]
fn completions_are_chosen_and_read_by_their_detail() {
    assert_eq!(completion_method(false, false), RegistryMethod::CompleteCallback);
    assert_eq!(completion_method(false, true), RegistryMethod::CompleteCallbackForNative);
    assert_eq!(completion_method(true, false), RegistryMethod::CompleteCallbackWithErrorCode);
    assert_eq!(
        completion_method(true, true),
        RegistryMethod::CompleteCallbackWithErrorCodeForNative
    );

    assert_eq!(
        decode_completion(true, JavaReturn::Int { value: 2 }),
        Ok(JavaCompletionOutcome::Cancelled)
    );
    assert_eq!(
        decode_completion(true, JavaReturn::Int { value: 6 }),
        Err(AnswerError::Unknown { outcome: UnknownOutcome { value: 6 } })
    );
    assert_eq!(
        decode_completion(true, JavaReturn::Boolean { flag: true }),
        Err(AnswerError::WrongType)
    );
    assert_eq!(
        decode_completion(false, JavaReturn::Boolean { flag: true }),
        Ok(JavaCompletionOutcome::Completed)
    );
    assert_eq!(
        decode_completion(false, JavaReturn::Boolean { flag: false }),
        Ok(JavaCompletionOutcome::Failure)
    );
    assert_eq!(
        decode_completion(false, JavaReturn::Int { value: 0 }),
        Err(AnswerError::WrongType)
    );
    assert_eq!(decode_completion(false, JavaReturn::Other), Err(AnswerError::WrongType));
}

const REPORT: ErrorReport<'static> =
    ErrorReport { callback_id: -7, error_code: 2, message: "late", detailed: true };

fn sweep(results: &[CallResult]) -> SweepStage<'static> {
    results.iter().fold(SweepStage::LoadMethods, |stage, result| {
        fail_all_pending_futures(stage, "gone", *result)
    })
}

#[test]
fn a_sweep_closes_its_frame_on_every_way() {
    assert_eq!(sweep(&[NO]), SweepStage::Done { swept: false });
    assert_eq!(sweep(&[YES]), SweepStage::PushFrame { capacity: 4 });
    assert_eq!(sweep(&[YES, NO]), SweepStage::NewMessage { text: "gone" });
    assert_eq!(sweep(&[YES, YES, NO]), SweepStage::PopFrame { swept: false });
    assert_eq!(sweep(&[YES, YES, YES]), SweepStage::Call { call: RegistryCall::FailAll });
    assert_eq!(
        sweep(&[YES, YES, YES, NO]),
        SweepStage::ClearException { place: "fail_all_call_java" }
    );
    assert_eq!(sweep(&[YES, YES, YES, NO, YES]), SweepStage::PopFrame { swept: false });
    assert_eq!(sweep(&[YES, YES, YES, YES]), SweepStage::PopFrame { swept: true });
    assert_eq!(sweep(&[YES, YES, YES, YES, NO, YES]), SweepStage::Done { swept: true });
}

#[test]
fn a_rejection_stops_at_the_first_failure() {
    let run = |results: &[CallResult]| {
        results.iter().fold(RejectStage::LoadMethods, |stage, result| {
            complete_error_sync(stage, REPORT, *result)
        })
    };
    assert_eq!(run(&[NO]), RejectStage::Done { rejected: false });
    assert_eq!(run(&[YES]), RejectStage::NewMessage { text: "late" });
    assert_eq!(run(&[YES, NO]), RejectStage::Done { rejected: false });
    assert_eq!(
        run(&[YES, YES]),
        RejectStage::Call {
            call: RegistryCall::CompleteWithError { callback_id: -7, error_code: 2, detailed: true }
        }
    );
    assert_eq!(run(&[YES, YES, NO]), RejectStage::ClearException);
    assert_eq!(run(&[YES, YES, NO, YES]), RejectStage::Done { rejected: false });
    assert_eq!(run(&[YES, YES, YES]), RejectStage::Done { rejected: true });
}

#[test]
fn an_error_is_delivered_call_by_call() {
    let run = |results: &[CallResult]| {
        results.iter().fold(ErrorDeliveryStage::LoadMethods, |stage, result| {
            complete_java_callback_with_error_code_for_native(stage, REPORT, *result)
        })
    };
    let answer = CallResult::Returned { answer: JavaReturn::Int { value: 0 } };
    let done = |completion| ErrorDeliveryStage::Done { completion };
    assert_eq!(run(&[NO]), done(Err(DeliveryError::LoadMethods)));
    assert_eq!(run(&[YES]), ErrorDeliveryStage::PushFrame { capacity: 4 });
    assert_eq!(run(&[YES, NO]), done(Err(DeliveryError::PushFrame)));
    assert_eq!(run(&[YES, YES]), ErrorDeliveryStage::NewMessage { text: "late" });
    let call = RegistryCall::CompleteWithError { callback_id: -7, error_code: 2, detailed: true };
    assert_eq!(run(&[YES, YES, YES]), ErrorDeliveryStage::Call { call });
    assert_eq!(run(&[YES, YES, NO, YES]), done(Err(DeliveryError::NewMessage)));
    assert_eq!(run(&[YES, YES, YES, NO, YES]), done(Err(DeliveryError::Call)));
    assert_eq!(run(&[YES, YES, YES, YES, YES]), done(Err(DeliveryError::Answer {
        error: AnswerError::WrongType
    })));
    assert_eq!(run(&[YES, YES, YES, answer, YES]), done(Ok(JavaCompletionOutcome::Completed)));
    assert_eq!(run(&[YES, YES, YES, answer, NO]), done(Err(DeliveryError::PopFrame)));

    assert_eq!(
        complete_java_callback_with_error_code(Ok(JavaCompletionOutcome::Failure)),
        Ok(())
    );
    assert_eq!(
        complete_java_callback_with_error_code(Err(DeliveryError::Call)),
        Err(DeliveryError::Call)
    );
}

#[test]
fn a_value_is_delivered_by_one_call() {
    let loaded = complete_java_callback(ValueDeliveryStage::LoadMethods, 5, false, YES);
    assert_eq!(
        loaded,
        ValueDeliveryStage::Call {
            call: RegistryCall::CompleteWithValue { callback_id: 5, detailed: false }
        }
    );
    let answer = CallResult::Returned { answer: JavaReturn::Boolean { flag: false } };
    assert_eq!(
        complete_java_callback(loaded, 5, false, answer),
        ValueDeliveryStage::Done { completion: Ok(JavaCompletionOutcome::Failure) }
    );
    assert_eq!(
        complete_java_callback(ValueDeliveryStage::LoadMethods, 5, false, NO),
        ValueDeliveryStage::Done { completion: Err(DeliveryError::LoadMethods) }
    );
    assert_eq!(
        complete_java_callback(loaded, 5, false, NO),
        ValueDeliveryStage::Done { completion: Err(DeliveryError::Call) }
    );
}

#[test]
fn calls_hand_over_what_their_methods_take() {
    let sweep = RegistryCall::FailAll;
    assert_eq!(sweep.method(), RegistryMethod::FailAllWithError);
    assert_eq!(sweep.arguments(), [JavaArgument::Message]);
    let value = |detailed| RegistryCall::CompleteWithValue { callback_id: 5, detailed };
    assert_eq!(value(false).method(), RegistryMethod::CompleteCallback);
    assert_eq!(value(true).method(), RegistryMethod::CompleteCallbackForNative);
    assert_eq!(value(true).arguments(), [JavaArgument::Long { long: 5 }, JavaArgument::Response]);
    let error =
        |detailed| RegistryCall::CompleteWithError { callback_id: -7, error_code: 2, detailed };
    assert_eq!(error(false).method(), RegistryMethod::CompleteCallbackWithErrorCode);
    assert_eq!(error(true).method(), RegistryMethod::CompleteCallbackWithErrorCodeForNative);
    assert_eq!(
        error(false).arguments(),
        [
            JavaArgument::Long { long: -7 },
            JavaArgument::Int { number: 2 },
            JavaArgument::Message,
        ]
    );
}

#[test]
fn every_method_is_looked_up_once_and_failures_are_named() {
    assert_eq!(REGISTRY_CLASS, "glide/internal/AsyncRegistry");
    assert_eq!(get_method_cache(CacheStep::Check, true), CacheStep::Use);
    let mut step = get_method_cache(CacheStep::Check, false);
    assert_eq!(
        step,
        CacheStep::LookUp { lookup: MethodLookup::FindClass { class: REGISTRY_CLASS } }
    );
    let mut methods = Vec::new();
    let mut messages = Vec::new();
    while let CacheStep::LookUp { lookup } = step {
        if let MethodLookup::FindMethod { method } = lookup {
            methods.push(method);
        }
        messages.push(lookup.failure("gone"));
        assert_eq!(get_method_cache(step, false), CacheStep::Fail { lookup });
        step = get_method_cache(step, true);
    }
    assert_eq!(step, CacheStep::Store { replace: true });
    assert_eq!(get_method_cache(step, true), CacheStep::Use);
    assert_eq!(
        methods,
        [
            RegistryMethod::CompleteCallback,
            RegistryMethod::CompleteCallbackForNative,
            RegistryMethod::CompleteCallbackWithErrorCode,
            RegistryMethod::CompleteCallbackWithErrorCodeForNative,
            RegistryMethod::FailAllWithError,
        ]
    );
    assert_eq!(
        messages,
        [
            "Failed to find AsyncRegistry class: gone",
            "Failed to create global class reference: gone",
            "Failed to get completeCallback method ID: gone",
            "Failed to get completeCallbackForNative method ID: gone",
            "Failed to get completeCallbackWithErrorCode method ID: gone",
            "Failed to get completeCallbackWithErrorCodeForNative method ID: gone",
            "Failed to get failAllWithError method ID: gone",
        ]
    );
}

#[test]
fn the_core_client_is_looked_up_once_and_replaced_at_start() {
    assert_eq!(CORE_CLIENT_CLASS, "glide/internal/GlideCoreClient");
    let later = |step, found| get_glide_core_client_cache_safe(step, false, found);
    let at_start = |step, found| get_glide_core_client_cache_safe(step, true, found);
    assert_eq!(later(CacheStep::Check, true), CacheStep::Use);

    let lookups = [
        CoreClientLookup::FindClass { class: CORE_CLIENT_CLASS },
        CoreClientLookup::PinClass,
        CoreClientLookup::FindMethod { method: CoreClientMethod::OnNativePush },
        CoreClientLookup::FindMethod { method: CoreClientMethod::RegisterNativeBufferCleaner },
    ];
    let mut step = later(CacheStep::Check, false);
    for lookup in lookups {
        assert_eq!(step, CacheStep::LookUp { lookup });
        assert_eq!(later(step, false), CacheStep::Fail { lookup });
        step = later(step, true);
    }
    assert_eq!(step, CacheStep::Store { replace: false });
    assert_eq!(later(step, true), CacheStep::Use);

    let mut step = at_start(CacheStep::Check, true);
    for lookup in &lookups[1..] {
        assert_eq!(step, CacheStep::LookUp { lookup: *lookup });
        step = at_start(step, true);
    }
    assert_eq!(step, CacheStep::Store { replace: true });
    assert_eq!(at_start(CacheStep::LookUp { lookup: lookups[1] }, false), CacheStep::Fail {
        lookup: lookups[1]
    });
}

#[test]
fn caches_keep_the_first_value_until_they_are_dropped() {
    let mut methods = CacheSlot::new();
    let mut client = CacheSlot::new();
    assert_eq!(methods.get(), None);
    methods.store(1);
    methods.store(2);
    assert_eq!(methods.get(), Some(&2));
    client.store_if_absent("first");
    client.store_if_absent("second");
    assert_eq!(client.get(), Some(&"first"));
    invalidate_jni_caches(&mut methods, &mut client);
    assert_eq!(methods.get(), None);
    assert_eq!(client.get(), None);
    client.store_if_absent("third");
    assert_eq!(client.get(), Some(&"third"));
    client.keep("fourth", false);
    assert_eq!(client.get(), Some(&"third"));
    client.keep("fifth", true);
    assert_eq!(client.get(), Some(&"fifth"));
}

#[test]
fn only_the_first_exceptions_are_described() {
    let mut descriptions = ExceptionDescriptions::new();
    assert!(describe_pending_java_exception_before_clear(&mut descriptions, None).is_none());
    let idle = describe_pending_java_exception_before_clear(&mut descriptions, Some(false)).unwrap();
    assert_eq!((idle.ordinal, idle.emit), (None, false));
    for ordinal in 0..8 {
        let description =
            describe_pending_java_exception_before_clear(&mut descriptions, Some(true)).unwrap();
        assert_eq!(description.ordinal, Some(ordinal));
        assert_eq!(description.emit, ordinal < 5);
    }
}

#[test]
fn handles_are_given_out_once() {
    let mut handles = SafeHandles::new();
    let given = (0..4).map(|_| generate_safe_handle(&mut handles)).collect::<Vec<_>>();
    assert_eq!(given, [1, 2, 3, 4]);
}

#[test]
fn a_client_is_found_or_made_from_a_waiting_configuration() {
    let run = |results: &[bool]| {
        results
            .iter()
            .fold(ClientStep::LookUp, |step, result| ensure_client_for_handle(step, *result))
    };
    assert_eq!(run(&[true]), ClientStep::Found);
    assert_eq!(run(&[false, false]), ClientStep::NotFound);
    assert_eq!(run(&[false, true, false]), ClientStep::ConnectFailed);
    assert_eq!(
        run(&[false, true]),
        ClientStep::Connect { lazy_connect: false, push_channel: true }
    );
    assert_eq!(run(&[false, true, true]), ClientStep::Keep);
    assert_eq!(run(&[false, true, true, true]), ClientStep::Register);
    assert_eq!(run(&[false, true, true, true, true]), ClientStep::ForwardPushes);
    assert_eq!(run(&[false, true, true, true, true, true]), ClientStep::Found);
    assert_eq!(CLIENT_NOT_FOUND, "Client not found in handle_table");
    assert_eq!(connect_failure("refused"), "Failed to create glide-core client: refused");
}

#[test]
fn thread_counts_are_read_or_defaulted() {
    for text in ["0", "7", "+3", "007", "18446744073709551615", "18446744073709551616", "", "+"] {
        assert_eq!(parse_count(text), text.parse::<usize>().ok());
    }
    for text in ["-1", " 1", "1 ", "1_000", "x", "++1", "١"] {
        assert_eq!(parse_count(text), text.parse::<usize>().ok());
        assert_eq!(parse_count(text), None);
    }
    assert_eq!(runtime_worker_threads(None), 2);
    assert_eq!(runtime_worker_threads(Some("many")), 2);
    assert_eq!(runtime_worker_threads(Some("4")), 4);
    assert_eq!(runtime_worker_threads(Some("0")), 0);
    assert_eq!(max_blocking_threads(4), 8);
    assert_eq!(get_callback_worker_threads(None), 2);
    assert_eq!(get_callback_worker_threads(Some("many")), 2);
    assert_eq!(get_callback_worker_threads(Some("0")), 1);
    assert_eq!(get_callback_worker_threads(Some("6")), 6);
}
