//! How a large response is put in native memory.

use vstd::prelude::*;

use crate::response::native_buffer::{register_native_buffer, NativeBufferRegistry};
use crate::response::wire::{
    serialize_array_to_bytes, serialize_map_vec_to_bytes, ArrayElement, MapElement,
};

verus! {

/// A response that may be put in native memory.
#[derive(Debug)]
pub enum LargeResponse {
    BulkString(Vec<u8>),
    Array(Vec<ArrayElement>),
    Mapping(Vec<(MapElement, MapElement)>),
    /// A response that has no form in native memory.
    Other,
}

/// The bytes of a response, where it has a form in native memory.
pub open spec fn payload_of(response: LargeResponse) -> Option<Seq<u8>> {
    match response {
        LargeResponse::BulkString(data) => Some(data@),
        LargeResponse::Array(items) => Some(
            crate::response::wire::array_bytes(crate::response::wire::element_meanings(items@)),
        ),
        LargeResponse::Mapping(entries) => Some(
            crate::response::wire::map_bytes(crate::response::wire::element_entries(entries@)),
        ),
        LargeResponse::Other => None,
    }
}

/// The bytes of a response, where it has a form in native memory.
pub fn direct_buffer_payload(response: LargeResponse, encoding_utf8: bool) -> (payload: Option<
    Vec<u8>,
>)
    ensures
        match payload {
            Some(bytes) => payload_of(response) == Some(bytes@),
            None => payload_of(response) is None,
        },
{
    match response {
        LargeResponse::BulkString(data) => Some(data),
        LargeResponse::Array(items) => Some(serialize_array_to_bytes(items, encoding_utf8)),
        LargeResponse::Mapping(entries) => Some(serialize_map_vec_to_bytes(entries, encoding_utf8)),
        LargeResponse::Other => None,
    }
}

/// Puts a response in native memory, and gives the number and the length of its buffer. A response
/// that has no form there changes nothing, and is converted as any other.
pub fn create_direct_byte_buffer(
    registry: &mut NativeBufferRegistry,
    response: LargeResponse,
    encoding_utf8: bool,
) -> (handle: Option<(u64, usize)>)
    ensures
        match payload_of(response) {
            Some(bytes) => {
                &&& handle matches Some(handle) && handle.0 == old(registry)@.next_id && handle.1
                    == bytes.len()
                &&& final(registry)@ == old(registry)@.registered(bytes)
            },
            None => handle is None && final(registry)@ == old(registry)@,
        },
{
    match direct_buffer_payload(response, encoding_utf8) {
        Some(bytes) => Some(register_native_buffer(registry, bytes)),
        None => None,
    }
}

/// A bulk string goes to native memory as it is, an array after its marker, and a map after its
/// own; nothing else has a form there.
pub proof fn law_payloads_are_the_responses(response: LargeResponse)
    ensures
        response matches LargeResponse::BulkString(data) ==> payload_of(response) == Some(data@),
        response matches LargeResponse::Array(items) ==> payload_of(response) == Some(
            crate::response::wire::array_bytes(crate::response::wire::element_meanings(items@)),
        ) && payload_of(response).unwrap()[0] == 42,
        response matches LargeResponse::Mapping(entries) ==> payload_of(response) == Some(
            crate::response::wire::map_bytes(crate::response::wire::element_entries(entries@)),
        ) && payload_of(response).unwrap()[0] == 37,
        payload_of(response) is None <==> response is Other,
{
}

} // verus!
