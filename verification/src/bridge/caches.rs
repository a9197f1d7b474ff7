//! Cached handles on classes and methods.

use vstd::prelude::*;

use crate::bridge::methods::RegistryMethod;

verus! {

/// A value that is computed when it is first needed and kept until it is dropped.
pub struct CacheSlot<T> {
    value: Option<T>,
}

impl<T> View for CacheSlot<T> {
    type V = Option<T>;

    closed spec fn view(&self) -> Option<T> {
        self.value
    }
}

/// What a slot holds after a value was cached where there is none.
pub open spec fn stored_if_absent<T>(slot: Option<T>, value: T) -> Option<T> {
    match slot {
        Some(kept) => Some(kept),
        None => Some(value),
    }
}

impl<T> CacheSlot<T> {
    /// An empty slot.
    pub fn new() -> (slot: CacheSlot<T>)
        ensures
            slot@ is None,
    {
        CacheSlot { value: None }
    }

    /// The cached value, where there is one.
    pub fn get(&self) -> (value: Option<&T>)
        ensures
            match value {
                Some(value) => self@ == Some(*value),
                None => self@ is None,
            },
    {
        match &self.value {
            Some(value) => Some(value),
            None => None,
        }
    }

    /// Caches a value in place of any other.
    pub fn store(&mut self, value: T)
        ensures
            final(self)@ == Some(value),
    {
        self.value = Some(value);
    }

    /// Caches a value where there is none: the first of two that were computed at once stays.
    pub fn store_if_absent(&mut self, value: T)
        ensures
            final(self)@ == stored_if_absent(old(self)@, value),
    {
        if self.value.is_none() {
            self.value = Some(value);
        }
    }

    /// Caches a value, in place of any other or only where there is none.
    pub fn keep(&mut self, value: T, replace: bool)
        ensures
            final(self)@ == (if replace {
                Some(value)
            } else {
                stored_if_absent(old(self)@, value)
            }),
    {
        if replace {
            self.store(value);
        } else {
            self.store_if_absent(value);
        }
    }

    /// Drops the cached value.
    pub fn invalidate(&mut self)
        ensures
            final(self)@ is None,
    {
        self.value = None;
    }
}

/// Drops all cached handles, so that they are looked up again when next needed. Stale ones would
/// make every later callback fail.
pub fn invalidate_jni_caches<M, C>(methods: &mut CacheSlot<M>, core_client: &mut CacheSlot<C>)
    ensures
        final(methods)@ is None,
        final(core_client)@ is None,
{
    methods.invalidate();
    core_client.invalidate();
}

/// The class of the callback registry.
pub const REGISTRY_CLASS: &'static str = "glide/internal/AsyncRegistry";

/// The class of the core client.
pub const CORE_CLIENT_CLASS: &'static str = "glide/internal/GlideCoreClient";

/// What is done next to get at what a cache holds.
#[derive(Clone, Copy, Debug, PartialEq, Eq)]
pub enum CacheStep<L> {
    /// See whether something is cached.
    Check,
    LookUp { lookup: L },
    /// Cache what was found, in place of any other or only where there is none.
    Store { replace: bool },
    /// Use what is cached.
    Use,
    /// This was not found: nothing is cached, and the caller is told.
    Fail { lookup: L },
}

/// What is looked up next to fill the cache of callback methods.
#[derive(Clone, Copy, Debug, PartialEq, Eq)]
pub enum MethodLookup {
    FindClass { class: &'static str },
    PinClass,
    FindMethod { method: RegistryMethod },
    /// All was found: the cache can be filled.
    Complete,
}

/// What is looked up after this was found.
pub open spec fn lookup_after(lookup: MethodLookup) -> MethodLookup {
    match lookup {
        MethodLookup::FindClass { .. } => MethodLookup::PinClass,
        MethodLookup::PinClass => MethodLookup::FindMethod {
            method: RegistryMethod::CompleteCallback,
        },
        MethodLookup::FindMethod { method } => match method {
            RegistryMethod::CompleteCallback => MethodLookup::FindMethod {
                method: RegistryMethod::CompleteCallbackForNative,
            },
            RegistryMethod::CompleteCallbackForNative => MethodLookup::FindMethod {
                method: RegistryMethod::CompleteCallbackWithErrorCode,
            },
            RegistryMethod::CompleteCallbackWithErrorCode => MethodLookup::FindMethod {
                method: RegistryMethod::CompleteCallbackWithErrorCodeForNative,
            },
            RegistryMethod::CompleteCallbackWithErrorCodeForNative => MethodLookup::FindMethod {
                method: RegistryMethod::FailAllWithError,
            },
            RegistryMethod::FailAllWithError => MethodLookup::Complete,
        },
        MethodLookup::Complete => MethodLookup::Complete,
    }
}

/// What is looked up after this was found.
fn next_method_lookup(lookup: MethodLookup) -> (next: MethodLookup)
    ensures
        next == lookup_after(lookup),
{
    match lookup {
        MethodLookup::FindClass { .. } => MethodLookup::PinClass,
        MethodLookup::PinClass => MethodLookup::FindMethod {
            method: RegistryMethod::CompleteCallback,
        },
        MethodLookup::FindMethod { method } => match method {
            RegistryMethod::CompleteCallback => MethodLookup::FindMethod {
                method: RegistryMethod::CompleteCallbackForNative,
            },
            RegistryMethod::CompleteCallbackForNative => MethodLookup::FindMethod {
                method: RegistryMethod::CompleteCallbackWithErrorCode,
            },
            RegistryMethod::CompleteCallbackWithErrorCode => MethodLookup::FindMethod {
                method: RegistryMethod::CompleteCallbackWithErrorCodeForNative,
            },
            RegistryMethod::CompleteCallbackWithErrorCodeForNative => MethodLookup::FindMethod {
                method: RegistryMethod::FailAllWithError,
            },
            RegistryMethod::FailAllWithError => MethodLookup::Complete,
        },
        MethodLookup::Complete => MethodLookup::Complete,
    }
}

/// What is done after a step that succeeded or did not, to get at the callback methods: what is
/// cached is used, and otherwise all is looked up and cached. What is not found ends the search.
pub open spec fn method_step_after(
    step: CacheStep<MethodLookup>,
    succeeded: bool,
) -> CacheStep<MethodLookup> {
    match step {
        CacheStep::Check => if succeeded {
            CacheStep::Use
        } else {
            CacheStep::LookUp { lookup: MethodLookup::FindClass { class: REGISTRY_CLASS } }
        },
        CacheStep::LookUp { lookup } => if !succeeded {
            CacheStep::Fail { lookup }
        } else if lookup_after(lookup) == MethodLookup::Complete {
            CacheStep::Store { replace: true }
        } else {
            CacheStep::LookUp { lookup: lookup_after(lookup) }
        },
        CacheStep::Store { .. } => CacheStep::Use,
        CacheStep::Use => CacheStep::Use,
        CacheStep::Fail { lookup } => CacheStep::Fail { lookup },
    }
}

/// Gets at the callback methods, step by step: says what is done after a step that succeeded or
/// did not.
pub fn get_method_cache(step: CacheStep<MethodLookup>, succeeded: bool) -> (next: CacheStep<
    MethodLookup,
>)
    ensures
        next == method_step_after(step, succeeded),
{
    match step {
        CacheStep::Check => {
            if succeeded {
                CacheStep::Use
            } else {
                CacheStep::LookUp { lookup: MethodLookup::FindClass { class: REGISTRY_CLASS } }
            }
        },
        CacheStep::LookUp { lookup } => {
            if !succeeded {
                CacheStep::Fail { lookup }
            } else {
                match next_method_lookup(lookup) {
                    MethodLookup::Complete => CacheStep::Store { replace: true },
                    next => CacheStep::LookUp { lookup: next },
                }
            }
        },
        CacheStep::Store { .. } => CacheStep::Use,
        CacheStep::Use => CacheStep::Use,
        CacheStep::Fail { lookup } => CacheStep::Fail { lookup },
    }
}

/// Where the search for the callback methods stands after steps that came out so.
pub open spec fn method_steps(
    step: CacheStep<MethodLookup>,
    results: Seq<bool>,
) -> CacheStep<MethodLookup>
    decreases results.len(),
{
    if results.len() == 0 {
        step
    } else {
        method_steps(method_step_after(step, results[0]), results.drop_first())
    }
}

/// The lookups for the callback methods, in their order.
pub open spec fn method_lookups() -> Seq<MethodLookup> {
    seq![
        MethodLookup::FindClass { class: REGISTRY_CLASS },
        MethodLookup::PinClass,
        MethodLookup::FindMethod { method: RegistryMethod::CompleteCallback },
        MethodLookup::FindMethod { method: RegistryMethod::CompleteCallbackForNative },
        MethodLookup::FindMethod { method: RegistryMethod::CompleteCallbackWithErrorCode },
        MethodLookup::FindMethod { method: RegistryMethod::CompleteCallbackWithErrorCodeForNative },
        MethodLookup::FindMethod { method: RegistryMethod::FailAllWithError },
    ]
}

/// What is cached is used as it is.
pub proof fn law_cached_methods_are_used(results: Seq<bool>)
    requires
        results.len() > 0,
        results[0],
    ensures
        method_steps(CacheStep::Check, results) == CacheStep::<MethodLookup>::Use,
{
    lemma_method_use_stays(results.drop_first());
}

/// Where nothing is cached, so many lookups that succeed are followed by the next one, or by
/// filling the cache after the last; the first that fails is the one of which the caller is told,
/// whatever comes after it.
pub proof fn law_methods_are_looked_up_in_order(found: nat, later: Seq<bool>)
    requires
        found <= method_lookups().len(),
    ensures
        ({
            let results = seq![false] + Seq::new(found, |i: int| true);
            &&& found < method_lookups().len() ==> {
                &&& method_steps(CacheStep::Check, results) == (CacheStep::LookUp {
                    lookup: method_lookups()[found as int],
                })
                &&& later.len() > 0 && !later[0] ==> method_steps(
                    method_steps(CacheStep::Check, results),
                    later,
                ) == (CacheStep::Fail { lookup: method_lookups()[found as int] })
            }
            &&& found == method_lookups().len() ==> {
                &&& method_steps(CacheStep::Check, results) == (CacheStep::<
                    MethodLookup,
                >::Store { replace: true })
                &&& later.len() > 0 ==> method_steps(
                    method_steps(CacheStep::Check, results),
                    later,
                ) == CacheStep::<MethodLookup>::Use
            }
        }),
{
    let results = seq![false] + Seq::new(found, |i: int| true);
    let lookups = Seq::new(found, |i: int| true);
    assert(results.drop_first() =~= lookups);
    lemma_methods_found(found);
    if later.len() > 0 {
        lemma_method_use_stays(later.drop_first());
        if found < method_lookups().len() {
            lemma_method_failure_stays(method_lookups()[found as int], later.drop_first());
        }
    }
}

/// Where the search stands after so many lookups that succeeded.
proof fn lemma_methods_found(found: nat)
    requires
        found <= method_lookups().len(),
    ensures
        method_steps(
            CacheStep::LookUp { lookup: method_lookups()[0] },
            Seq::new(found, |i: int| true),
        ) == (if found < method_lookups().len() {
            CacheStep::LookUp { lookup: method_lookups()[found as int] }
        } else {
            CacheStep::Store { replace: true }
        }),
    decreases found,
{
    let results = Seq::new(found, |i: int| true);
    if found > 0 {
        lemma_methods_found((found - 1) as nat);
        let before = Seq::new((found - 1) as nat, |i: int| true);
        assert(results =~= before.push(true));
        lemma_last_method_step(CacheStep::LookUp { lookup: method_lookups()[0] }, before, true);
    }
}

proof fn lemma_last_method_step(step: CacheStep<MethodLookup>, results: Seq<bool>, last: bool)
    ensures
        method_steps(step, results.push(last)) == method_step_after(
            method_steps(step, results),
            last,
        ),
    decreases results.len(),
{
    reveal_with_fuel(method_steps, 2);
    if results.len() > 0 {
        lemma_last_method_step(method_step_after(step, results[0]), results.drop_first(), last);
        assert(results.push(last).drop_first() =~= results.drop_first().push(last));
    }
}

proof fn lemma_method_use_stays(results: Seq<bool>)
    ensures
        method_steps(CacheStep::Use, results) == CacheStep::<MethodLookup>::Use,
    decreases results.len(),
{
    if results.len() > 0 {
        lemma_method_use_stays(results.drop_first());
    }
}

proof fn lemma_method_failure_stays(lookup: MethodLookup, results: Seq<bool>)
    ensures
        method_steps(CacheStep::Fail { lookup }, results) == (CacheStep::Fail { lookup }),
    decreases results.len(),
{
    if results.len() > 0 {
        lemma_method_failure_stays(lookup, results.drop_first());
    }
}

impl MethodLookup {
    /// What is said when this was not found, with the text of the error.
    pub open spec fn failure_text(self, error: Seq<char>) -> Seq<char> {
        match self {
            MethodLookup::FindClass { .. } => "Failed to find AsyncRegistry class: "@ + error,
            MethodLookup::PinClass => "Failed to create global class reference: "@ + error,
            MethodLookup::FindMethod { method } => "Failed to get "@ + method.name_text()
                + " method ID: "@ + error,
            MethodLookup::Complete => error,
        }
    }

    /// What is said when this was not found, with the text of the error.
    pub fn failure(self, error: &str) -> (message: String)
        ensures
            message@ == self.failure_text(error@),
    {
        let mut message = String::new();
        match self {
            MethodLookup::FindClass { .. } => {
                message.append("Failed to find AsyncRegistry class: ");
            },
            MethodLookup::PinClass => {
                message.append("Failed to create global class reference: ");
            },
            MethodLookup::FindMethod { method } => {
                message.append("Failed to get ");
                message.append(method.name());
                message.append(" method ID: ");
            },
            MethodLookup::Complete => {},
        }
        message.append(error);
        proof {
            assert(message@ =~= self.failure_text(error@));
        }
        message
    }
}

/// A static method of the core client.
#[derive(Clone, Copy, Debug, PartialEq, Eq, Structural)]
pub enum CoreClientMethod {
    OnNativePush,
    RegisterNativeBufferCleaner,
}

impl CoreClientMethod {
    /// The name of the method.
    pub open spec fn name_text(self) -> Seq<char> {
        match self {
            CoreClientMethod::OnNativePush => "onNativePush"@,
            CoreClientMethod::RegisterNativeBufferCleaner => "registerNativeBufferCleaner"@,
        }
    }

    /// The name of the method.
    pub fn name(self) -> (name: &'static str)
        ensures
            name@ == self.name_text(),
    {
        match self {
            CoreClientMethod::OnNativePush => "onNativePush",
            CoreClientMethod::RegisterNativeBufferCleaner => "registerNativeBufferCleaner",
        }
    }

    /// The type signature of the method.
    pub open spec fn signature_text(self) -> Seq<char> {
        match self {
            CoreClientMethod::OnNativePush => "(J[B[B[B)V"@,
            CoreClientMethod::RegisterNativeBufferCleaner => "(Ljava/nio/ByteBuffer;J)V"@,
        }
    }

    /// The type signature of the method.
    pub fn signature(self) -> (signature: &'static str)
        ensures
            signature@ == self.signature_text(),
    {
        match self {
            CoreClientMethod::OnNativePush => "(J[B[B[B)V",
            CoreClientMethod::RegisterNativeBufferCleaner => "(Ljava/nio/ByteBuffer;J)V",
        }
    }
}

/// What is looked up next to fill the cache of the core client.
#[derive(Clone, Copy, Debug, PartialEq, Eq)]
pub enum CoreClientLookup {
    FindClass { class: &'static str },
    PinClass,
    FindMethod { method: CoreClientMethod },
    /// All was found: the cache can be filled.
    Complete,
}

/// What is looked up after this was found.
pub open spec fn core_client_lookup_after(lookup: CoreClientLookup) -> CoreClientLookup {
    match lookup {
        CoreClientLookup::FindClass { .. } => CoreClientLookup::PinClass,
        CoreClientLookup::PinClass => CoreClientLookup::FindMethod {
            method: CoreClientMethod::OnNativePush,
        },
        CoreClientLookup::FindMethod { method } => match method {
            CoreClientMethod::OnNativePush => CoreClientLookup::FindMethod {
                method: CoreClientMethod::RegisterNativeBufferCleaner,
            },
            CoreClientMethod::RegisterNativeBufferCleaner => CoreClientLookup::Complete,
        },
        CoreClientLookup::Complete => CoreClientLookup::Complete,
    }
}

/// What is looked up after this was found.
fn next_core_client_lookup(lookup: CoreClientLookup) -> (next: CoreClientLookup)
    ensures
        next == core_client_lookup_after(lookup),
{
    match lookup {
        CoreClientLookup::FindClass { .. } => CoreClientLookup::PinClass,
        CoreClientLookup::PinClass => CoreClientLookup::FindMethod {
            method: CoreClientMethod::OnNativePush,
        },
        CoreClientLookup::FindMethod { method } => match method {
            CoreClientMethod::OnNativePush => CoreClientLookup::FindMethod {
                method: CoreClientMethod::RegisterNativeBufferCleaner,
            },
            CoreClientMethod::RegisterNativeBufferCleaner => CoreClientLookup::Complete,
        },
        CoreClientLookup::Complete => CoreClientLookup::Complete,
    }
}

/// What is done after a step that succeeded or did not, to get at the core client: what is cached
/// is used, and otherwise all is looked up and cached. What is not found ends the search.
///
/// At start-up the class is given: the search begins with pinning it, and what is found replaces
/// what was cached. Later, the first that is cached stays.
pub open spec fn core_client_step_after(
    step: CacheStep<CoreClientLookup>,
    at_start: bool,
    succeeded: bool,
) -> CacheStep<CoreClientLookup> {
    match step {
        CacheStep::Check => if at_start {
            CacheStep::LookUp { lookup: CoreClientLookup::PinClass }
        } else if succeeded {
            CacheStep::Use
        } else {
            CacheStep::LookUp { lookup: CoreClientLookup::FindClass { class: CORE_CLIENT_CLASS } }
        },
        CacheStep::LookUp { lookup } => if !succeeded {
            CacheStep::Fail { lookup }
        } else if core_client_lookup_after(lookup) == CoreClientLookup::Complete {
            CacheStep::Store { replace: at_start }
        } else {
            CacheStep::LookUp { lookup: core_client_lookup_after(lookup) }
        },
        CacheStep::Store { .. } => CacheStep::Use,
        CacheStep::Use => CacheStep::Use,
        CacheStep::Fail { lookup } => CacheStep::Fail { lookup },
    }
}

/// Gets at the core client, step by step: says what is done after a step that succeeded or did
/// not. At start-up the class is given.
pub fn get_glide_core_client_cache_safe(
    step: CacheStep<CoreClientLookup>,
    at_start: bool,
    succeeded: bool,
) -> (next: CacheStep<CoreClientLookup>)
    ensures
        next == core_client_step_after(step, at_start, succeeded),
{
    match step {
        CacheStep::Check => {
            if at_start {
                CacheStep::LookUp { lookup: CoreClientLookup::PinClass }
            } else if succeeded {
                CacheStep::Use
            } else {
                CacheStep::LookUp {
                    lookup: CoreClientLookup::FindClass { class: CORE_CLIENT_CLASS },
                }
            }
        },
        CacheStep::LookUp { lookup } => {
            if !succeeded {
                CacheStep::Fail { lookup }
            } else {
                match next_core_client_lookup(lookup) {
                    CoreClientLookup::Complete => CacheStep::Store { replace: at_start },
                    next => CacheStep::LookUp { lookup: next },
                }
            }
        },
        CacheStep::Store { .. } => CacheStep::Use,
        CacheStep::Use => CacheStep::Use,
        CacheStep::Fail { lookup } => CacheStep::Fail { lookup },
    }
}

/// Where the search for the core client stands after steps that came out so.
pub open spec fn core_client_steps(
    step: CacheStep<CoreClientLookup>,
    at_start: bool,
    results: Seq<bool>,
) -> CacheStep<CoreClientLookup>
    decreases results.len(),
{
    if results.len() == 0 {
        step
    } else {
        core_client_steps(
            core_client_step_after(step, at_start, results[0]),
            at_start,
            results.drop_first(),
        )
    }
}

/// What the search for the core client comes to, from how its steps came out: whether something
/// was cached, the four lookups in their order, and the filling of the cache.
pub open spec fn core_client_outcome(results: Seq<bool>) -> CacheStep<CoreClientLookup> {
    if results[0] {
        CacheStep::Use
    } else if !results[1] {
        CacheStep::Fail { lookup: CoreClientLookup::FindClass { class: CORE_CLIENT_CLASS } }
    } else if !results[2] {
        CacheStep::Fail { lookup: CoreClientLookup::PinClass }
    } else if !results[3] {
        CacheStep::Fail {
            lookup: CoreClientLookup::FindMethod { method: CoreClientMethod::OnNativePush },
        }
    } else if !results[4] {
        CacheStep::Fail {
            lookup: CoreClientLookup::FindMethod {
                method: CoreClientMethod::RegisterNativeBufferCleaner,
            },
        }
    } else {
        CacheStep::Use
    }
}

/// The search for the core client ends with what is cached, or with the first lookup that failed.
pub proof fn law_core_client_outcome(results: Seq<bool>)
    requires
        results.len() >= 6,
    ensures
        core_client_steps(CacheStep::Check, false, results) == core_client_outcome(results),
        !results[0] && results[1] && results[2] && results[3] && results[4] ==> core_client_steps(
            CacheStep::Check,
            false,
            results.take(5),
        ) == (CacheStep::<CoreClientLookup>::Store { replace: false }),
{
    reveal_with_fuel(core_client_steps, 7);
    let one = results.drop_first();
    let two = one.drop_first();
    let three = two.drop_first();
    let four = three.drop_first();
    let five = four.drop_first();
    let outcome = core_client_outcome(results);
    lemma_core_client_end_stays(outcome, one);
    lemma_core_client_end_stays(outcome, two);
    lemma_core_client_end_stays(outcome, three);
    lemma_core_client_end_stays(outcome, four);
    lemma_core_client_end_stays(outcome, five);
    lemma_core_client_end_stays(outcome, five.drop_first());
}

/// At start-up the class is pinned and its methods are looked up, and what was found replaces what
/// was cached, whether or not there was anything.
pub proof fn law_core_client_is_replaced_at_start(cached: bool)
    ensures
        core_client_steps(CacheStep::Check, true, seq![cached, true, true, true]) == (CacheStep::<
            CoreClientLookup,
        >::Store { replace: true }),
{
    reveal_with_fuel(core_client_steps, 5);
}

proof fn lemma_core_client_end_stays(end: CacheStep<CoreClientLookup>, results: Seq<bool>)
    requires
        end is Use || end is Fail,
    ensures
        core_client_steps(end, false, results) == end,
    decreases results.len(),
{
    if results.len() > 0 {
        lemma_core_client_end_stays(end, results.drop_first());
    }
}

/// Of two values that are computed at once, the first to be cached stays.
pub proof fn law_cache_keeps_the_first<T>(kept: T, late: T)
    ensures
        stored_if_absent(Some(kept), late) == Some(kept),
        stored_if_absent(None, late) == Some(late),
        stored_if_absent(stored_if_absent(None, kept), late) == Some(kept),
{
}

/// What was not found is said with what was looked for and with the text of the error.
pub proof fn law_failures_say_what_was_looked_for(
    class: &'static str,
    method: RegistryMethod,
    error: Seq<char>,
)
    ensures
        (MethodLookup::FindClass { class }).failure_text(error)
            == "Failed to find AsyncRegistry class: "@ + error,
        MethodLookup::PinClass.failure_text(error) == "Failed to create global class reference: "@
            + error,
        (MethodLookup::FindMethod { method }).failure_text(error) == "Failed to get "@
            + method.name_text() + " method ID: "@ + error,
{
}

/// At start-up a lookup that fails ends the search with it, whatever comes after, and nothing is
/// cached.
pub proof fn law_core_client_start_fails_at_the_first(cached: bool)
    ensures
        core_client_steps(CacheStep::Check, true, seq![cached, false]) == (CacheStep::Fail {
            lookup: CoreClientLookup::PinClass,
        }),
        core_client_steps(CacheStep::Check, true, seq![cached, true, false]) == (CacheStep::Fail {
            lookup: CoreClientLookup::FindMethod { method: CoreClientMethod::OnNativePush },
        }),
        core_client_steps(CacheStep::Check, true, seq![cached, true, true, false]) == (
        CacheStep::Fail {
            lookup: CoreClientLookup::FindMethod {
                method: CoreClientMethod::RegisterNativeBufferCleaner,
            },
        }),
        core_client_steps(CacheStep::Check, true, seq![cached, true, true, true, true])
            == CacheStep::<CoreClientLookup>::Use,
{
    reveal_with_fuel(core_client_steps, 6);
}

/// The methods of the core client are looked up by their names and signatures.
pub proof fn law_core_client_methods_have_their_names()
    ensures
        CoreClientMethod::OnNativePush.name_text() == "onNativePush"@,
        CoreClientMethod::OnNativePush.signature_text() == "(J[B[B[B)V"@,
        CoreClientMethod::RegisterNativeBufferCleaner.name_text() == "registerNativeBufferCleaner"@,
        CoreClientMethod::RegisterNativeBufferCleaner.signature_text()
            == "(Ljava/nio/ByteBuffer;J)V"@,
{
}

/// The core client is looked up in this order where nothing is cached: its class by its name, its pin,
/// and its two methods. The first that is not found is told; what was found is cached only where
/// nothing is by then.
pub proof fn law_core_client_steps_in_order()
    ensures
        ({
            let class = CoreClientLookup::FindClass { class: "glide/internal/GlideCoreClient" };
            let pin = CoreClientLookup::PinClass;
            let push = CoreClientLookup::FindMethod { method: CoreClientMethod::OnNativePush };
            let cleaner = CoreClientLookup::FindMethod {
                method: CoreClientMethod::RegisterNativeBufferCleaner,
            };
            let check = CacheStep::Check;
            &&& core_client_steps(check, false, seq![true]) == CacheStep::<CoreClientLookup>::Use
            &&& core_client_steps(check, false, seq![false]) == (CacheStep::LookUp { lookup: class })
            &&& core_client_steps(check, false, seq![false, false]) == (CacheStep::Fail {
                lookup: class,
            })
            &&& core_client_steps(check, false, seq![false, true]) == (CacheStep::LookUp {
                lookup: pin,
            })
            &&& core_client_steps(check, false, seq![false, true, false]) == (CacheStep::Fail {
                lookup: pin,
            })
            &&& core_client_steps(check, false, seq![false, true, true]) == (CacheStep::LookUp {
                lookup: push,
            })
            &&& core_client_steps(check, false, seq![false, true, true, false]) == (
            CacheStep::Fail { lookup: push })
            &&& core_client_steps(check, false, seq![false, true, true, true]) == (
            CacheStep::LookUp { lookup: cleaner })
            &&& core_client_steps(check, false, seq![false, true, true, true, false]) == (
            CacheStep::Fail { lookup: cleaner })
            &&& core_client_steps(check, false, seq![false, true, true, true, true]) == (
            CacheStep::<CoreClientLookup>::Store { replace: false })
        }),
{
    reveal_with_fuel(core_client_steps, 6);
}

/// The callback methods are looked up in the class of the callback registry, first its class, then
/// its pin, then the methods for values, for errors and for all, each plain one before the one with a
/// detailed answer; then they are cached in place of any others.
pub proof fn law_method_steps_in_order(lookup: MethodLookup, found: bool)
    ensures
        method_step_after(CacheStep::Check, false) == (CacheStep::LookUp {
            lookup: MethodLookup::FindClass { class: "glide/internal/AsyncRegistry" },
        }),
        method_step_after(CacheStep::Check, true) == CacheStep::<MethodLookup>::Use,
        method_step_after(CacheStep::LookUp { lookup }, false) == (CacheStep::Fail { lookup }),
        lookup is FindClass ==> method_step_after(CacheStep::LookUp { lookup }, true) == (
        CacheStep::LookUp { lookup: MethodLookup::PinClass }),
        lookup is PinClass ==> method_step_after(CacheStep::LookUp { lookup }, true) == (
        CacheStep::LookUp {
            lookup: MethodLookup::FindMethod { method: RegistryMethod::CompleteCallback },
        }),
        lookup matches MethodLookup::FindMethod { method } ==> method_step_after(
            CacheStep::LookUp { lookup },
            true,
        ) == (match method {
            RegistryMethod::CompleteCallback => CacheStep::LookUp {
                lookup: MethodLookup::FindMethod {
                    method: RegistryMethod::CompleteCallbackForNative,
                },
            },
            RegistryMethod::CompleteCallbackForNative => CacheStep::LookUp {
                lookup: MethodLookup::FindMethod {
                    method: RegistryMethod::CompleteCallbackWithErrorCode,
                },
            },
            RegistryMethod::CompleteCallbackWithErrorCode => CacheStep::LookUp {
                lookup: MethodLookup::FindMethod {
                    method: RegistryMethod::CompleteCallbackWithErrorCodeForNative,
                },
            },
            RegistryMethod::CompleteCallbackWithErrorCodeForNative => CacheStep::LookUp {
                lookup: MethodLookup::FindMethod { method: RegistryMethod::FailAllWithError },
            },
            RegistryMethod::FailAllWithError => CacheStep::Store { replace: true },
        }),
        method_step_after(CacheStep::Store { replace: found }, found) == CacheStep::<
            MethodLookup,
        >::Use,
{
}

} // verus!
