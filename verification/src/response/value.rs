//! Server values, the size at which they are taken, and the way on which they are converted.

use vstd::prelude::*;

verus! {

/// A value that holds no other values.
#[derive(Clone, Debug, PartialEq, Eq)]
pub enum Scalar {
    Nil,
    Int(i64),
    BulkString(Vec<u8>),
    SimpleString(String),
    Okay,
    /// A floating-point number, by the 64 bits that stand for it.
    Double(u64),
    Boolean(bool),
    /// A number of any size, in decimal digits.
    BigNumber(String),
}

/// A value that a server sent.
#[derive(Debug)]
pub enum ServerValue {
    Scalar(Scalar),
    Array(Vec<ServerValue>),
    /// Keys and their values.
    Mapping(Vec<(ServerValue, ServerValue)>),
    /// A value with attributes, which count for nothing.
    Attribute(Box<ServerValue>),
    /// The members of a set.
    Members(Vec<ServerValue>),
    /// A text in a known format.
    VerbatimString(String),
    Push(Vec<ServerValue>),
    /// A message that says what went wrong.
    ServerError,
}

/// The responses beyond this size are handed over in native memory.
pub const DIRECT_BUFFER_THRESHOLD: usize = 16384;

/// The size at which a message of a server is taken.
pub const SERVER_ERROR_SIZE: usize = 128;

/// The number of bytes in a text.
pub open spec fn text_size(text: Seq<char>) -> nat {
    vstd::utf8::encode_utf8(text).len()
}

/// The size at which a scalar is taken.
pub open spec fn scalar_size(value: Scalar) -> nat {
    match value {
        Scalar::Nil => 0,
        Scalar::Int(_) => 8,
        Scalar::BulkString(data) => data@.len(),
        Scalar::SimpleString(text) => text_size(text@),
        Scalar::Okay => 2,
        Scalar::Double(_) => 8,
        Scalar::Boolean(_) => 1,
        Scalar::BigNumber(digits) => text_size(digits@),
    }
}

/// The size at which a value is taken: its contents, and an overhead for each element.
pub open spec fn value_size(value: ServerValue) -> nat
    decreases value,
{
    match value {
        ServerValue::Scalar(scalar) => scalar_size(scalar),
        ServerValue::Array(items) => sum_of_sizes(items@) + 8 * items@.len(),
        ServerValue::Mapping(entries) => sum_of_entry_sizes(entries@) + 16 * entries@.len(),
        ServerValue::Attribute(data) => value_size(*data),
        ServerValue::Members(items) => sum_of_sizes(items@) + 8 * items@.len(),
        ServerValue::VerbatimString(text) => text_size(text@),
        ServerValue::Push(data) => sum_of_sizes(data@),
        ServerValue::ServerError => SERVER_ERROR_SIZE as nat,
    }
}

/// The sizes of values, added up.
pub open spec fn sum_of_sizes(items: Seq<ServerValue>) -> nat
    decreases items,
{
    if items.len() == 0 {
        0
    } else {
        sum_of_sizes(items.drop_last()) + value_size(items.last())
    }
}

/// The sizes of keys and values, added up.
pub open spec fn sum_of_entry_sizes(entries: Seq<(ServerValue, ServerValue)>) -> nat
    decreases entries,
{
    if entries.len() == 0 {
        0
    } else {
        sum_of_entry_sizes(entries.drop_last()) + value_size(entries.last().0) + value_size(
            entries.last().1,
        )
    }
}

/// Whether a value holds no other values.
pub open spec fn simple_scalar(value: ServerValue) -> bool {
    value is Scalar
}

/// Whether a value is a bulk string.
pub open spec fn bulk_string(value: ServerValue) -> bool {
    value matches ServerValue::Scalar(scalar) && scalar is BulkString
}

/// Whether a value holds no other values.
pub fn is_simple_scalar(value: &ServerValue) -> (simple: bool)
    ensures
        simple == simple_scalar(*value),
{
    match value {
        ServerValue::Scalar(_) => true,
        _ => false,
    }
}

/// Whether a value is a bulk string.
fn is_bulk_string(value: &ServerValue) -> (bulk: bool)
    ensures
        bulk == bulk_string(*value),
{
    match value {
        ServerValue::Scalar(Scalar::BulkString(_)) => true,
        _ => false,
    }
}

/// The size as a machine word, where it fits in one.
pub open spec fn fitting(size: nat) -> Option<usize> {
    if size <= usize::MAX {
        Some(size as usize)
    } else {
        None
    }
}

/// The size at which a scalar is taken.
fn estimate_scalar_size(value: &Scalar) -> (size: usize)
    ensures
        size == scalar_size(*value),
{
    match value {
        Scalar::Nil => 0,
        Scalar::Int(_) => 8,
        Scalar::BulkString(data) => data.len(),
        Scalar::SimpleString(text) => text.as_str().as_bytes().len(),
        Scalar::Okay => 2,
        Scalar::Double(_) => 8,
        Scalar::Boolean(_) => 1,
        Scalar::BigNumber(digits) => digits.as_str().as_bytes().len(),
    }
}

/// The size at which a value is taken, or nothing where a machine word does not hold it.
pub fn checked_value_size(value: &ServerValue) -> (size: Option<usize>)
    ensures
        size == fitting(value_size(*value)),
    decreases *value,
{
    match value {
        ServerValue::Scalar(scalar) => Some(estimate_scalar_size(scalar)),
        ServerValue::Array(items) => with_overhead(checked_sum_of_sizes(items), items.len(), 8),
        ServerValue::Mapping(entries) => with_overhead(
            checked_sum_of_entry_sizes(entries),
            entries.len(),
            16,
        ),
        ServerValue::Attribute(data) => checked_value_size(data),
        ServerValue::Members(items) => with_overhead(checked_sum_of_sizes(items), items.len(), 8),
        ServerValue::VerbatimString(text) => Some(text.as_str().as_bytes().len()),
        ServerValue::Push(data) => checked_sum_of_sizes(data),
        ServerValue::ServerError => Some(SERVER_ERROR_SIZE),
    }
}

/// A sum with an overhead for each of the elements, or nothing where a machine word does not hold
/// it.
fn with_overhead(sum: Option<usize>, count: usize, overhead: usize) -> (size: Option<usize>)
    ensures
        size == (match sum {
            Some(sum) => fitting((sum + overhead * count) as nat),
            None => None,
        }),
{
    proof {
        assert(overhead * count == count * overhead) by (nonlinear_arith);
        assert(overhead * count >= 0) by (nonlinear_arith);
    }
    match (sum, count.checked_mul(overhead)) {
        (Some(sum), Some(extra)) => sum.checked_add(extra),
        _ => None,
    }
}

/// The sizes added up, or nothing where a machine word does not hold the sum.
fn checked_sum_of_sizes(items: &Vec<ServerValue>) -> (sum: Option<usize>)
    ensures
        sum == fitting(sum_of_sizes(items@)),
    decreases *items,
{
    let mut sum: Option<usize> = Some(0);
    let mut i: usize = 0;
    while i < items.len()
        invariant
            i <= items@.len(),
            sum == fitting(sum_of_sizes(items@.take(i as int))),
        decreases items@.len() - i,
    {
        let size = checked_value_size(&items[i]);
        proof {
            let taken = items@.take(i + 1);
            assert(taken.drop_last() =~= items@.take(i as int));
            assert(taken.last() == items@[i as int]);
        }
        sum = match (sum, size) {
            (Some(sum), Some(size)) => sum.checked_add(size),
            _ => None,
        };
        i = i + 1;
    }
    assert(items@.take(i as int) =~= items@);
    sum
}

/// The sizes of keys and values added up, or nothing where a machine word does not hold the sum.
fn checked_sum_of_entry_sizes(entries: &Vec<(ServerValue, ServerValue)>) -> (sum: Option<usize>)
    ensures
        sum == fitting(sum_of_entry_sizes(entries@)),
    decreases *entries,
{
    let mut sum: Option<usize> = Some(0);
    let mut i: usize = 0;
    while i < entries.len()
        invariant
            i <= entries@.len(),
            sum == fitting(sum_of_entry_sizes(entries@.take(i as int))),
        decreases entries@.len() - i,
    {
        let entry = &entries[i];
        let key_size = checked_value_size(&entry.0);
        let size = checked_value_size(&entry.1);
        proof {
            let taken = entries@.take(i + 1);
            assert(taken.drop_last() =~= entries@.take(i as int));
            assert(taken.last() == entries@[i as int]);
        }
        sum = match (sum, key_size, size) {
            (Some(sum), Some(key_size), Some(size)) => match sum.checked_add(key_size) {
                Some(sum) => sum.checked_add(size),
                None => None,
            },
            _ => None,
        };
        i = i + 1;
    }
    assert(entries@.take(i as int) =~= entries@);
    sum
}

/// The size at which a value is taken.
pub fn estimate_value_size(value: &ServerValue) -> (size: usize)
    requires
        value_size(*value) <= usize::MAX,
    ensures
        size == value_size(*value),
{
    match checked_value_size(value) {
        Some(size) => size,
        None => 0,
    }
}

/// Whether a value is handed over in native memory: a large bulk string, or a large collection
/// whose elements keep their types when written down.
pub open spec fn uses_direct_buffer(value: ServerValue) -> bool {
    match value {
        ServerValue::Scalar(Scalar::BulkString(data)) => data@.len() > DIRECT_BUFFER_THRESHOLD,
        ServerValue::Array(items) => all_simple(items@) && sum_of_sizes(items@)
            > DIRECT_BUFFER_THRESHOLD,
        ServerValue::Mapping(entries) => all_bulk(entries@) && sum_of_entry_sizes(entries@)
            > DIRECT_BUFFER_THRESHOLD,
        ServerValue::Members(items) => all_simple(items@) && sum_of_sizes(items@)
            > DIRECT_BUFFER_THRESHOLD,
        _ => false,
    }
}

/// Whether no element holds other values.
pub open spec fn all_simple(items: Seq<ServerValue>) -> bool {
    forall|i: int| 0 <= i < items.len() ==> simple_scalar(#[trigger] items[i])
}

/// Whether all keys and values are bulk strings.
pub open spec fn all_bulk(entries: Seq<(ServerValue, ServerValue)>) -> bool {
    forall|i: int|
        0 <= i < entries.len() ==> bulk_string((#[trigger] entries[i]).0) && bulk_string(
            entries[i].1,
        )
}

/// Whether no element holds other values.
fn only_simple(items: &Vec<ServerValue>) -> (simple: bool)
    ensures
        simple == all_simple(items@),
{
    let mut i: usize = 0;
    while i < items.len()
        invariant
            i <= items@.len(),
            forall|j: int| 0 <= j < i ==> simple_scalar(#[trigger] items@[j]),
        decreases items@.len() - i,
    {
        if !is_simple_scalar(&items[i]) {
            return false;
        }
        i = i + 1;
    }
    true
}

/// Whether all keys and values are bulk strings.
fn only_bulk(entries: &Vec<(ServerValue, ServerValue)>) -> (bulk: bool)
    ensures
        bulk == all_bulk(entries@),
{
    let mut i: usize = 0;
    while i < entries.len()
        invariant
            i <= entries@.len(),
            forall|j: int|
                0 <= j < i ==> bulk_string((#[trigger] entries@[j]).0) && bulk_string(
                    entries@[j].1,
                ),
        decreases entries@.len() - i,
    {
        let entry = &entries[i];
        if !is_bulk_string(&entry.0) || !is_bulk_string(&entry.1) {
            return false;
        }
        i = i + 1;
    }
    true
}

/// Whether a sum is beyond the threshold, as one is that no machine word holds.
fn beyond_threshold(sum: Option<usize>) -> (beyond: bool)
    ensures
        beyond == (match sum {
            Some(sum) => sum > DIRECT_BUFFER_THRESHOLD,
            None => true,
        }),
{
    match sum {
        Some(sum) => sum > DIRECT_BUFFER_THRESHOLD,
        None => true,
    }
}

/// Whether a value is handed over in native memory.
pub fn should_use_direct_buffer(value: &ServerValue) -> (direct: bool)
    ensures
        direct == uses_direct_buffer(*value),
{
    match value {
        ServerValue::Scalar(Scalar::BulkString(data)) => data.len() > DIRECT_BUFFER_THRESHOLD,
        ServerValue::Array(items) => only_simple(items) && beyond_threshold(
            checked_sum_of_sizes(items),
        ),
        ServerValue::Mapping(entries) => only_bulk(entries) && beyond_threshold(
            checked_sum_of_entry_sizes(entries),
        ),
        ServerValue::Members(items) => only_simple(items) && beyond_threshold(
            checked_sum_of_sizes(items),
        ),
        _ => false,
    }
}

/// Whether a value is converted through native memory. Sets have no form there and are converted
/// element by element, however large they are.
pub open spec fn takes_direct_path(value: ServerValue) -> bool {
    uses_direct_buffer(value) && !(value is Members)
}

/// The name of the way on which a value is converted.
pub fn response_conversion_path(value: &ServerValue) -> (path: &'static str)
    ensures
        path@ == (if takes_direct_path(*value) {
            "direct_byte_buffer"@
        } else {
            "java_object"@
        }),
{
    let direct_form = match value {
        ServerValue::Scalar(Scalar::BulkString(_)) => true,
        ServerValue::Array(_) => true,
        ServerValue::Mapping(_) => true,
        _ => false,
    };
    if direct_form && should_use_direct_buffer(value) {
        "direct_byte_buffer"
    } else {
        "java_object"
    }
}

/// What is handed over in native memory is larger than the threshold, as its estimate says too, and
/// holds nothing that is nested.
pub proof fn law_direct_values_are_large_and_flat(value: ServerValue)
    requires
        uses_direct_buffer(value),
    ensures
        value_size(value) > DIRECT_BUFFER_THRESHOLD,
        value matches ServerValue::Array(items) ==> all_simple(items@),
        value matches ServerValue::Members(items) ==> all_simple(items@),
        value matches ServerValue::Mapping(entries) ==> all_bulk(entries@),
{
}

/// An array grows with each element that it gets: by what the element is taken at, and by the
/// overhead.
pub proof fn law_size_is_additive(items: Vec<ServerValue>, longer: Vec<ServerValue>, item: ServerValue)
    requires
        longer@ == items@.push(item),
    ensures
        value_size(ServerValue::Array(longer)) == value_size(ServerValue::Array(items))
            + value_size(item) + 8,
{
    assert(longer@.drop_last() =~= items@);
    assert(longer@.last() == item);
    assert(sum_of_sizes(longer@) == sum_of_sizes(items@) + value_size(item));
}

/// The size at which a scalar is taken: a word for a number, a byte for a flag, and the bytes of a
/// text.
pub proof fn law_sizes_of_scalars(value: Scalar)
    ensures
        value is Nil ==> scalar_size(value) == 0,
        value is Int ==> scalar_size(value) == 8,
        value is Double ==> scalar_size(value) == 8,
        value is Boolean ==> scalar_size(value) == 1,
        value is Okay ==> scalar_size(value) == 2,
        value matches Scalar::BulkString(data) ==> scalar_size(value) == data@.len(),
        value matches Scalar::SimpleString(text) ==> scalar_size(value) == vstd::utf8::encode_utf8(
            text@,
        ).len(),
        value matches Scalar::BigNumber(digits) ==> scalar_size(value) == vstd::utf8::encode_utf8(
            digits@,
        ).len(),
        value_size(ServerValue::Scalar(value)) == scalar_size(value),
{
}

/// Sizes add up, element by element.
pub proof fn law_sizes_add_up(
    items: Seq<ServerValue>,
    item: ServerValue,
    entries: Seq<(ServerValue, ServerValue)>,
    key: ServerValue,
)
    ensures
        sum_of_sizes(Seq::<ServerValue>::empty()) == 0,
        sum_of_sizes(items.push(item)) == sum_of_sizes(items) + value_size(item),
        sum_of_entry_sizes(Seq::<(ServerValue, ServerValue)>::empty()) == 0,
        sum_of_entry_sizes(entries.push((key, item))) == sum_of_entry_sizes(entries) + value_size(
            key,
        ) + value_size(item),
{
    assert(items.push(item).drop_last() =~= items);
    assert(entries.push((key, item)).drop_last() =~= entries);
}

/// A collection is taken at the sizes of what it holds and an overhead for each element: a word for
/// each member of an array or a set, two for each entry of a map, none in a push. Attributes count
/// for nothing, a text for its bytes, and a message of the server for a fixed size.
pub proof fn law_sizes_of_collections(value: ServerValue)
    ensures
        value matches ServerValue::Array(items) ==> value_size(value) == sum_of_sizes(items@) + 8
            * items@.len(),
        value matches ServerValue::Members(items) ==> value_size(value) == sum_of_sizes(items@) + 8
            * items@.len(),
        value matches ServerValue::Mapping(entries) ==> value_size(value) == sum_of_entry_sizes(
            entries@,
        ) + 16 * entries@.len(),
        value matches ServerValue::Push(data) ==> value_size(value) == sum_of_sizes(data@),
        value matches ServerValue::Attribute(data) ==> value_size(value) == value_size(*data),
        value matches ServerValue::VerbatimString(text) ==> value_size(value)
            == vstd::utf8::encode_utf8(text@).len(),
        value is ServerError ==> value_size(value) == 128,
{
}

/// A size is handed out exactly where a machine word holds it.
pub proof fn law_sizes_fit_or_not(size: nat)
    ensures
        fitting(size) is Some <==> size <= usize::MAX,
        fitting(size) matches Some(word) ==> word == size,
{
}

/// What is handed over in native memory: a bulk string of more than 16384 bytes, an array or a set
/// of scalars that are taken at more than that, and a map of bulk strings that are. Nothing else is,
/// however large it is.
pub proof fn law_what_uses_native_memory(value: ServerValue)
    ensures
        uses_direct_buffer(value) <==> match value {
            ServerValue::Scalar(scalar) => scalar matches Scalar::BulkString(data) && data@.len()
                >= 16385,
            ServerValue::Array(items) => sum_of_sizes(items@) >= 16385 && forall|i: int|
                0 <= i < items@.len() ==> #[trigger] items@[i] is Scalar,
            ServerValue::Members(items) => sum_of_sizes(items@) >= 16385 && forall|i: int|
                0 <= i < items@.len() ==> #[trigger] items@[i] is Scalar,
            ServerValue::Mapping(entries) => sum_of_entry_sizes(entries@) >= 16385 && forall|i: int|
                0 <= i < entries@.len() ==> {
                    &&& (#[trigger] entries@[i]).0 matches ServerValue::Scalar(key) && key
                        is BulkString
                    &&& entries@[i].1 matches ServerValue::Scalar(held) && held is BulkString
                },
            _ => false,
        },
        takes_direct_path(value) <==> uses_direct_buffer(value) && !(value is Members),
        simple_scalar(value) <==> value is Scalar,
{
    match value {
        ServerValue::Array(items) => {
            lemma_all_simple(items@);
        },
        ServerValue::Members(items) => {
            lemma_all_simple(items@);
        },
        ServerValue::Mapping(entries) => {
            let flat = forall|i: int|
                0 <= i < entries@.len() ==> {
                    &&& (#[trigger] entries@[i]).0 matches ServerValue::Scalar(key) && key
                        is BulkString
                    &&& entries@[i].1 matches ServerValue::Scalar(held) && held is BulkString
                };
            if all_bulk(entries@) {
                assert forall|i: int| 0 <= i < entries@.len() implies {
                    &&& (#[trigger] entries@[i]).0 matches ServerValue::Scalar(key) && key
                        is BulkString
                    &&& entries@[i].1 matches ServerValue::Scalar(held) && held is BulkString
                } by {
                    assert(bulk_string(entries@[i].0) && bulk_string(entries@[i].1));
                }
            }
            if flat {
                assert forall|i: int| 0 <= i < entries@.len() implies bulk_string(
                    (#[trigger] entries@[i]).0,
                ) && bulk_string(entries@[i].1) by {}
            }
        },
        _ => {},
    }
}

proof fn lemma_all_simple(items: Seq<ServerValue>)
    ensures
        all_simple(items) <==> forall|i: int| 0 <= i < items.len() ==> #[trigger] items[i] is Scalar,
{
    if all_simple(items) {
        assert forall|i: int| 0 <= i < items.len() implies #[trigger] items[i] is Scalar by {
            assert(simple_scalar(items[i]));
        }
    }
}

} // verus!
