//! Native memory that the virtual machine reads, kept until it is freed.

use vstd::prelude::*;

use dashmap::DashMap;

verus! {

/// `dashmap::DashMap`, a concurrent map.
#[verifier::external_type_specification]
#[verifier::external_body]
#[verifier::reject_recursive_types(K)]
#[verifier::reject_recursive_types(V)]
#[verifier::reject_recursive_types(S)]
pub struct ExDashMap<K, V, S>(dashmap::DashMap<K, V, S>);

/// The buffers that a map holds, by their numbers.
pub uninterp spec fn native_buffers(map: DashMap<u64, Vec<u8>>) -> Map<u64, Seq<u8>>;

/// No buffers at all.
pub open spec fn no_buffers() -> Map<u64, Seq<u8>> {
    Map::empty()
}

/// Calls `DashMap::new`: a new map is empty.
#[verifier::external_body]
fn new_buffers() -> (buffers: DashMap<u64, Vec<u8>>)
    ensures
        native_buffers(buffers) == no_buffers(),
{
    DashMap::new()
}

/// Calls `DashMap::insert`: the map then holds the buffer under the number, in place of any that
/// was there, which is handed back. Nothing else changes.
#[verifier::external_body]
fn insert_buffer(buffers: &mut DashMap<u64, Vec<u8>>, id: u64, bytes: Vec<u8>) -> (replaced: Option<
    Vec<u8>,
>)
    ensures
        native_buffers(*final(buffers)) == native_buffers(*old(buffers)).insert(id, bytes@),
        match replaced {
            Some(replaced) => native_buffers(*old(buffers)).contains_key(id) && native_buffers(
                *old(buffers),
            )[id] == replaced@,
            None => !native_buffers(*old(buffers)).contains_key(id),
        },
{
    buffers.insert(id, bytes)
}

/// Calls `DashMap::remove`: the buffer under the number leaves the map and is handed back, where
/// there is one. Nothing else changes.
#[verifier::external_body]
fn remove_buffer(buffers: &mut DashMap<u64, Vec<u8>>, id: u64) -> (removed: Option<(u64, Vec<u8>)>)
    ensures
        native_buffers(*final(buffers)) == native_buffers(*old(buffers)).remove(id),
        match removed {
            Some(removed) => removed.0 == id && native_buffers(*old(buffers)).contains_key(id)
                && native_buffers(*old(buffers))[id] == removed.1@,
            None => !native_buffers(*old(buffers)).contains_key(id),
        },
{
    buffers.remove(&id)
}

/// Calls `DashMap::get` and hands what it finds to the caller's function: the buffer under the
/// number, where there is one. The map stays as it is.
#[verifier::external_body]
fn read_buffer<T>(
    buffers: &DashMap<u64, Vec<u8>>,
    id: u64,
    read: impl FnOnce(&Vec<u8>) -> T,
) -> (result: Option<T>)
    requires
        forall|bytes: Vec<u8>|
            native_buffers(*buffers).contains_key(id) && bytes@ == native_buffers(*buffers)[id]
                ==> #[trigger] call_requires(read, (&bytes,)),
    ensures
        match result {
            Some(value) => native_buffers(*buffers).contains_key(id) && exists|bytes: Vec<u8>|
                bytes@ == native_buffers(*buffers)[id] && #[trigger] call_ensures(
                    read,
                    (&bytes,),
                    value,
                ),
            None => !native_buffers(*buffers).contains_key(id),
        },
{
    buffers.get(&id).map(|buffer| read(buffer.value()))
}

/// The buffers that are handed out, and the number of the next one.
pub struct NativeBufferRegistry {
    buffers: DashMap<u64, Vec<u8>>,
    next_id: u64,
}

/// What a registry holds.
pub struct RegistryView {
    pub buffers: Map<u64, Seq<u8>>,
    pub next_id: u64,
}

impl RegistryView {
    /// The registry after a buffer was registered.
    pub open spec fn registered(self, bytes: Seq<u8>) -> RegistryView {
        RegistryView {
            buffers: self.buffers.insert(self.next_id, bytes),
            next_id: crate::serial::following(self.next_id),
        }
    }

    /// The registry after a buffer was freed.
    pub open spec fn freed(self, id: u64) -> RegistryView {
        RegistryView { buffers: self.buffers.remove(id), next_id: self.next_id }
    }

    /// Whether the registry has not come back to the numbers of buffers that it still holds.
    pub open spec fn ahead(self) -> bool {
        forall|id: u64| #[trigger] self.buffers.contains_key(id) ==> id < self.next_id
    }
}

impl View for NativeBufferRegistry {
    type V = RegistryView;

    closed spec fn view(&self) -> RegistryView {
        RegistryView { buffers: native_buffers(self.buffers), next_id: self.next_id }
    }
}

impl NativeBufferRegistry {
    /// An empty registry, whose first buffer has the number 1.
    pub fn new() -> (registry: NativeBufferRegistry)
        ensures
            registry@ == empty_registry(),
    {
        NativeBufferRegistry { buffers: new_buffers(), next_id: 1 }
    }

    /// What `read` makes of a buffer, where there is one with this number.
    pub fn with_bytes<T>(&self, id: u64, read: impl FnOnce(&Vec<u8>) -> T) -> (result: Option<T>)
        requires
            forall|bytes: Vec<u8>|
                self@.buffers.contains_key(id) && bytes@ == self@.buffers[id]
                    ==> #[trigger] call_requires(read, (&bytes,)),
        ensures
            match result {
                Some(value) => self@.buffers.contains_key(id) && exists|bytes: Vec<u8>|
                    bytes@ == self@.buffers[id] && #[trigger] call_ensures(read, (&bytes,), value),
                None => !self@.buffers.contains_key(id),
            },
    {
        read_buffer(&self.buffers, id, read)
    }
}

/// Keeps a buffer until it is freed. Gives its number and its length.
pub fn register_native_buffer(registry: &mut NativeBufferRegistry, bytes: Vec<u8>) -> (handle: (
    u64,
    usize,
))
    ensures
        handle.0 == old(registry)@.next_id,
        handle.1 == bytes@.len(),
        final(registry)@ == old(registry)@.registered(bytes@),
{
    let id = registry.next_id;
    let length = bytes.len();
    registry.next_id = registry.next_id.wrapping_add(1);
    let _replaced = insert_buffer(&mut registry.buffers, id, bytes);
    (id, length)
}

/// Frees a buffer. Says whether there was one.
pub fn free_native_buffer(registry: &mut NativeBufferRegistry, id: u64) -> (freed: bool)
    ensures
        freed == old(registry)@.buffers.contains_key(id),
        final(registry)@ == old(registry)@.freed(id),
{
    remove_buffer(&mut registry.buffers, id).is_some()
}

/// A new registry is ahead of its buffers, and stays so whatever is registered and freed, until all
/// numbers were given out.
pub proof fn law_registry_stays_ahead(registry: RegistryView, bytes: Seq<u8>, id: u64)
    requires
        registry.ahead(),
    ensures
        empty_registry().ahead(),
        registry.next_id < u64::MAX ==> registry.registered(bytes).ahead(),
        registry.freed(id).ahead(),
{
}

/// While the registry is ahead, a new buffer has a number that no other has: it displaces none, is
/// found under its number, and the others stay.
pub proof fn law_registered_buffer_is_new(registry: RegistryView, bytes: Seq<u8>, other: u64)
    requires
        registry.ahead(),
    ensures
        !registry.buffers.contains_key(registry.next_id),
        registry.registered(bytes).buffers.contains_key(registry.next_id),
        registry.registered(bytes).buffers[registry.next_id] == bytes,
        registry.buffers.contains_key(other) ==> registry.registered(bytes).buffers.contains_key(
            other,
        ) && registry.registered(bytes).buffers[other] == registry.buffers[other],
{
}

/// Freeing a buffer undoes registering it, and a buffer is freed only once.
pub proof fn law_free_undoes_register(registry: RegistryView, bytes: Seq<u8>)
    requires
        registry.ahead(),
    ensures
        registry.registered(bytes).freed(registry.next_id).buffers == registry.buffers,
        !registry.registered(bytes).freed(registry.next_id).buffers.contains_key(registry.next_id),
{
    assert(registry.registered(bytes).freed(registry.next_id).buffers =~= registry.buffers);
}

/// Something that happens to a registry.
pub enum RegistryEvent {
    Registered { bytes: Seq<u8> },
    Freed { id: u64 },
}

/// A registry after these events.
pub open spec fn after_events(registry: RegistryView, events: Seq<RegistryEvent>) -> RegistryView
    decreases events.len(),
{
    if events.len() == 0 {
        registry
    } else {
        let before = after_events(registry, events.drop_last());
        match events.last() {
            RegistryEvent::Registered { bytes } => before.registered(bytes),
            RegistryEvent::Freed { id } => before.freed(id),
        }
    }
}

/// A registry that nothing was registered in.
pub open spec fn empty_registry() -> RegistryView {
    RegistryView { buffers: no_buffers(), next_id: 1 }
}

/// A buffer gets a number of at least 1 that no buffer had before, freed or not, and larger than
/// all of them: the number that is given out after `later` is larger than the one that was given
/// out after `earlier`, if something was registered in between. Fewer than 2^64 - 1 events may have
/// come first.
pub proof fn law_numbers_are_never_given_twice(
    earlier: Seq<RegistryEvent>,
    bytes: Seq<u8>,
    between: Seq<RegistryEvent>,
)
    requires
        earlier.len() + between.len() + 1 < u64::MAX,
    ensures
        ({
            let registered = earlier.push(RegistryEvent::Registered { bytes });
            let first = after_events(empty_registry(), earlier).next_id;
            let second = after_events(empty_registry(), registered + between).next_id;
            1 <= first < second
        }),
        after_events(empty_registry(), earlier).ahead(),
{
    let registered = earlier.push(RegistryEvent::Registered { bytes });
    lemma_registry_grows(empty_registry(), earlier);
    assert(registered.drop_last() =~= earlier);
    let after = after_events(empty_registry(), registered);
    lemma_registry_grows(after, between);
    lemma_events_compose(empty_registry(), registered, between);
}

proof fn lemma_registry_grows(registry: RegistryView, events: Seq<RegistryEvent>)
    requires
        registry.ahead(),
        registry.next_id + events.len() <= u64::MAX,
    ensures
        after_events(registry, events).ahead(),
        registry.next_id <= after_events(registry, events).next_id <= registry.next_id
            + events.len(),
    decreases events.len(),
{
    if events.len() > 0 {
        lemma_registry_grows(registry, events.drop_last());
        let before = after_events(registry, events.drop_last());
        match events.last() {
            RegistryEvent::Registered { bytes } => {
                law_registry_stays_ahead(before, bytes, 0);
            },
            RegistryEvent::Freed { id } => {
                law_registry_stays_ahead(before, seq![], id);
            },
        }
    }
}

proof fn lemma_events_compose(
    registry: RegistryView,
    first: Seq<RegistryEvent>,
    second: Seq<RegistryEvent>,
)
    ensures
        after_events(registry, first + second) == after_events(
            after_events(registry, first),
            second,
        ),
    decreases second.len(),
{
    if second.len() == 0 {
        assert(first + second =~= first);
    } else {
        lemma_events_compose(registry, first, second.drop_last());
        assert((first + second).drop_last() =~= first + second.drop_last());
        assert((first + second).last() == second.last());
    }
}

/// A buffer keeps its contents until it is freed, whatever is registered and freed meanwhile.
pub proof fn law_buffer_is_kept_until_freed(
    registry: RegistryView,
    id: u64,
    events: Seq<RegistryEvent>,
)
    requires
        registry.ahead(),
        registry.next_id + events.len() <= u64::MAX,
        registry.buffers.contains_key(id),
        forall|i: int|
            0 <= i < events.len() ==> #[trigger] events[i] != (RegistryEvent::Freed { id }),
    ensures
        after_events(registry, events).buffers.contains_key(id),
        after_events(registry, events).buffers[id] == registry.buffers[id],
    decreases events.len(),
{
    if events.len() > 0 {
        law_buffer_is_kept_until_freed(registry, id, events.drop_last());
        lemma_registry_grows(registry, events.drop_last());
        assert(events[events.len() - 1] != (RegistryEvent::Freed { id }));
    }
}

/// A new registry holds nothing, and its first buffer has the number 1. Registering keeps the bytes
/// under the next number and moves on by one; freeing takes out that buffer alone.
pub proof fn law_registry_is_exact(registry: RegistryView, bytes: Seq<u8>, id: u64, other: u64)
    ensures
        empty_registry().next_id == 1,
        !empty_registry().buffers.contains_key(id),
        registry.registered(bytes).buffers == registry.buffers.insert(registry.next_id, bytes),
        registry.next_id < u64::MAX ==> registry.registered(bytes).next_id == registry.next_id + 1,
        !registry.freed(id).buffers.contains_key(id),
        other != id ==> (registry.freed(id).buffers.contains_key(other)
            <==> registry.buffers.contains_key(other)),
        other != id && registry.buffers.contains_key(other) ==> registry.freed(id).buffers[other]
            == registry.buffers[other],
        registry.freed(id).next_id == registry.next_id,
{
}

} // verus!
