//! Sizes, conversion paths and the bytes of large responses.

use redis::{parse_redis_value, Value};

use request_metrics::response::native_buffer::{
    free_native_buffer, register_native_buffer, NativeBufferRegistry,
};
use request_metrics::response::payload::{
    create_direct_byte_buffer, direct_buffer_payload, LargeResponse,
};
use request_metrics::response::push::{handle_push_notification, push_call, PushKind};
use request_metrics::response::value::{
    checked_value_size, estimate_value_size, is_simple_scalar, response_conversion_path,
    should_use_direct_buffer, Scalar, ServerValue,
};
use request_metrics::response::wire::{
    array_payload, map_payload, serialize_array_to_bytes, serialize_map_vec_to_bytes,
    ArrayElement, MapElement, WireElement,
};

fn bulk(length: usize) -> ServerValue {
    ServerValue::Scalar(Scalar::BulkString(vec![0; length]))
}

fn bytes(data: &[u8]) -> ServerValue {
    ServerValue::Scalar(Scalar::BulkString(data.to_vec()))
}

#[test]
fn bulk_string_diagnostics_identify_direct_buffer_threshold() {
    let threshold_sized = ServerValue::Scalar(Scalar::BulkString(vec![0; 16 * 1024]));
    assert_eq!(response_conversion_path(&threshold_sized), "java_object");

    let above_threshold = ServerValue::Scalar(Scalar::BulkString(vec![0; 16 * 1024 + 1]));
    assert_eq!(response_conversion_path(&above_threshold), "direct_byte_buffer");
}

#[test]
fn serialize_array_to_bytes_encodes_bool_double_bignumber_and_nil() {
    let big_number_value = parse_redis_value(b"(123456789012345678901234567890\r\n").unwrap();
    let Value::BigNumber(big_number) = big_number_value else {
        panic!("expected big number from parser");
    };

    let payload = vec![
        ArrayElement::Scalar(Scalar::Boolean(true)),
        ArrayElement::Scalar(Scalar::Double(42.25f64.to_bits())),
        ArrayElement::Scalar(Scalar::BigNumber(big_number.to_string())),
        ArrayElement::Scalar(Scalar::Nil),
    ];

    let bytes = serialize_array_to_bytes(payload, false);

    // Array header: '*' + 4-byte element count.
    assert_eq!(bytes[0], b'*');
    assert_eq!(u32::from_be_bytes(bytes[1..5].try_into().unwrap()), 4);

    // Element 1: boolean true ('?'+1).
    assert_eq!(bytes[5], b'?');
    assert_eq!(bytes[6], 1);

    // Element 2: double (',' + 8 bytes).
    assert_eq!(bytes[7], b',');
    let decoded_double = f64::from_be_bytes(bytes[8..16].try_into().unwrap());
    assert_eq!(decoded_double, 42.25);

    // Element 3: big number ('(' + len + utf8 digits).
    assert_eq!(bytes[16], b'(');
    let big_number_len = u32::from_be_bytes(bytes[17..21].try_into().unwrap()) as usize;
    let big_number_text = std::str::from_utf8(&bytes[21..21 + big_number_len]).unwrap();
    assert_eq!(big_number_text, "123456789012345678901234567890");

    // Element 4: null bulk string ('$' + -1).
    let null_offset = 21 + big_number_len;
    assert_eq!(bytes[null_offset], b'$');
    assert_eq!(
        i32::from_be_bytes(bytes[null_offset + 1..null_offset + 5].try_into().unwrap()),
        -1
    );
}

#[test]
fn every_kind_of_scalar_has_its_own_form() {
    let encoded = |scalar: Scalar| array_payload(&vec![WireElement::Scalar(&scalar)])[5..].to_vec();
    assert_eq!(encoded(Scalar::Nil), [b'$', 0xff, 0xff, 0xff, 0xff]);
    assert_eq!(encoded(Scalar::BulkString(vec![1, 2])), [b'$', 0, 0, 0, 2, 1, 2]);
    assert_eq!(encoded(Scalar::BulkString(vec![])), [b'$', 0, 0, 0, 0]);
    assert_eq!(encoded(Scalar::SimpleString("PONG".to_string())), *b"+\0\0\0\x04PONG");
    assert_eq!(encoded(Scalar::Okay), *b"+\0\0\0\x02OK");
    assert_eq!(encoded(Scalar::Boolean(false)), [b'?', 0]);
    assert_eq!(encoded(Scalar::BigNumber("-7".to_string())), *b"(\0\0\0\x02-7");
    for number in [0, 1, -1, 258, i64::MAX, i64::MIN] {
        let mut expected = vec![b':'];
        expected.extend_from_slice(&number.to_be_bytes());
        assert_eq!(encoded(Scalar::Int(number)), expected);
    }
    for number in [0.0, -2.5, f64::INFINITY, f64::MIN_POSITIVE] {
        let mut expected = vec![b','];
        expected.extend_from_slice(&number.to_be_bytes());
        assert_eq!(encoded(Scalar::Double(number.to_bits())), expected);
    }
}

#[test]
fn success_is_written_in_capitals_however_it_is_spelt() {
    for spelling in ["OK", "ok", "Ok", "oK"] {
        let scalar = Scalar::SimpleString(spelling.to_string());
        assert_eq!(
            array_payload(&vec![WireElement::Scalar(&scalar)]),
            array_payload(&vec![WireElement::Scalar(&Scalar::Okay)])
        );
    }
    let longer = Scalar::SimpleString("okay".to_string());
    assert_eq!(array_payload(&vec![WireElement::Scalar(&longer)])[5..], *b"+\0\0\0\x04okay");
}

#[test]
fn complex_elements_are_written_by_the_text_in_which_they_show_themselves() {
    let nested = Value::Array(vec![Value::Int(1), Value::Nil]);
    let text = format!("{:?}", nested);
    assert_eq!(text, "array([int(1), nil])");
    let bytes = serialize_array_to_bytes(
        vec![ArrayElement::Scalar(Scalar::Int(3)), ArrayElement::Complex(nested)],
        true,
    );
    let mut expected = b"*\0\0\0\x02:\0\0\0\0\0\0\0\x03#".to_vec();
    expected.extend_from_slice(&(text.len() as u32).to_be_bytes());
    expected.extend_from_slice(text.as_bytes());
    assert_eq!(bytes, expected);
    assert_eq!(array_payload(&vec![WireElement::Complex("x".to_string())]), *b"*\0\0\0\x01#\0\0\0\x01x");
}

#[test]
fn maps_are_written_key_before_value() {
    let bytes = serialize_map_vec_to_bytes(
        vec![
            (MapElement::BulkString(b"k".to_vec()), MapElement::BulkString(b"vv".to_vec())),
            (MapElement::Other(Value::Int(5)), MapElement::Other(Value::Okay)),
        ],
        false,
    );
    assert_eq!(
        bytes,
        *b"%\0\0\0\x02\0\0\0\x01k\0\0\0\x02vv\0\0\0\x06int(5)\0\0\0\x02ok"
    );
    assert_eq!(map_payload(&vec![]), *b"%\0\0\0\0");
    assert_ne!(
        map_payload(&vec![(b"ab".to_vec(), b"c".to_vec())]),
        map_payload(&vec![(b"a".to_vec(), b"bc".to_vec())])
    );
}

#[test]
fn sizes_are_estimated_from_contents_and_overhead() {
    let cases = vec![
        (ServerValue::Scalar(Scalar::Nil), 0),
        (ServerValue::Scalar(Scalar::Int(-1)), 8),
        (ServerValue::Scalar(Scalar::Double(0)), 8),
        (ServerValue::Scalar(Scalar::Boolean(true)), 1),
        (ServerValue::Scalar(Scalar::Okay), 2),
        (ServerValue::Scalar(Scalar::SimpleString("äb".to_string())), 3),
        (ServerValue::Scalar(Scalar::BigNumber("12345".to_string())), 5),
        (bulk(7), 7),
        (ServerValue::Array(vec![bulk(3), ServerValue::Scalar(Scalar::Int(1))]), 3 + 8 + 16),
        (ServerValue::Members(vec![bulk(3)]), 3 + 8),
        (ServerValue::Mapping(vec![(bulk(2), bulk(5))]), 7 + 16),
        (ServerValue::Push(vec![bulk(2), bulk(5)]), 7),
        (ServerValue::VerbatimString("abc".to_string()), 3),
        (ServerValue::Attribute(Box::new(bulk(9))), 9),
        (ServerValue::ServerError, 128),
        (ServerValue::Array(vec![ServerValue::Array(vec![ServerValue::ServerError])]), 128 + 16),
    ];
    for (value, size) in cases {
        assert_eq!(estimate_value_size(&value), size);
        assert_eq!(checked_value_size(&value), Some(size));
    }
}

#[test]
fn only_large_flat_values_go_through_native_memory() {
    let large = 16 * 1024 + 1;
    assert!(should_use_direct_buffer(&bulk(large)));
    assert!(should_use_direct_buffer(&ServerValue::Array(vec![bulk(large - 8), bulk(8)])));
    assert!(!should_use_direct_buffer(&ServerValue::Array(vec![bulk(large - 9), bulk(8)])));
    assert!(!should_use_direct_buffer(&ServerValue::Array(vec![
        bulk(large),
        ServerValue::Array(vec![])
    ])));
    assert!(should_use_direct_buffer(&ServerValue::Mapping(vec![(bulk(1), bulk(large - 1))])));
    assert!(!should_use_direct_buffer(&ServerValue::Mapping(vec![(
        bulk(large),
        ServerValue::Scalar(Scalar::Int(1))
    )])));
    assert!(!should_use_direct_buffer(&ServerValue::VerbatimString("x".repeat(large))));
    assert!(!should_use_direct_buffer(&ServerValue::Scalar(Scalar::SimpleString(
        "x".repeat(large)
    ))));

    let set = ServerValue::Members(vec![bulk(large)]);
    assert!(should_use_direct_buffer(&set));
    assert_eq!(response_conversion_path(&set), "java_object");
    assert_eq!(
        response_conversion_path(&ServerValue::Array(vec![bulk(large)])),
        "direct_byte_buffer"
    );
    assert!(is_simple_scalar(&bulk(1)));
    assert!(!is_simple_scalar(&ServerValue::ServerError));
}

#[test]
fn buffers_are_kept_until_they_are_freed() {
    let mut registry = NativeBufferRegistry::new();
    assert_eq!(register_native_buffer(&mut registry, vec![1, 2, 3]), (1, 3));
    assert_eq!(register_native_buffer(&mut registry, vec![]), (2, 0));
    assert_eq!(registry.with_bytes(1, |bytes| bytes.clone()), Some(vec![1, 2, 3]));
    assert_eq!(registry.with_bytes(2, |bytes| bytes.len()), Some(0));
    assert!(free_native_buffer(&mut registry, 1));
    assert!(!free_native_buffer(&mut registry, 1));
    assert!(!free_native_buffer(&mut registry, 77));
    assert_eq!(registry.with_bytes(1, |bytes| bytes.len()), None);
    assert_eq!(register_native_buffer(&mut registry, vec![9]), (3, 1));
    assert_eq!(registry.with_bytes(2, |bytes| bytes.clone()), Some(vec![]));
}

#[test]
fn responses_are_put_in_native_memory_where_they_have_a_form_there() {
    let mut registry = NativeBufferRegistry::new();
    let handle =
        create_direct_byte_buffer(&mut registry, LargeResponse::BulkString(vec![4, 5]), true);
    assert_eq!(handle, Some((1, 2)));
    assert_eq!(registry.with_bytes(1, |bytes| bytes.clone()), Some(vec![4, 5]));

    let array = LargeResponse::Array(vec![ArrayElement::Scalar(Scalar::Boolean(true))]);
    assert_eq!(create_direct_byte_buffer(&mut registry, array, true), Some((2, 7)));
    let map = LargeResponse::Mapping(vec![(
        MapElement::BulkString(vec![1]),
        MapElement::BulkString(vec![2]),
    )]);
    assert_eq!(create_direct_byte_buffer(&mut registry, map, false), Some((3, 15)));
    assert_eq!(create_direct_byte_buffer(&mut registry, LargeResponse::Other, false), None);
    assert_eq!(registry.with_bytes(3, |bytes| bytes[0]), Some(b'%'));
    assert_eq!(registry.with_bytes(4, |bytes| bytes.len()), None);
    assert!(direct_buffer_payload(LargeResponse::Other, true).is_none());
}

#[test]
fn messages_are_mapped_by_their_kind() {
    let message =
        handle_push_notification(PushKind::Message, &vec![bytes(b"ch"), bytes(b"hello")]).unwrap();
    assert_eq!((message.message, message.channel), (b"hello".to_vec(), b"ch".to_vec()));
    assert_eq!(message.pattern, None);

    let sharded = handle_push_notification(
        PushKind::SMessage,
        &vec![bytes(b"ch"), ServerValue::Scalar(Scalar::Int(1)), bytes(b"extra")],
    )
    .unwrap();
    assert_eq!((sharded.message, sharded.channel), (vec![], b"ch".to_vec()));

    let data = vec![bytes(b"c*"), bytes(b"ch"), bytes(b"hi")];
    let matched = handle_push_notification(PushKind::PMessage, &data).unwrap();
    assert_eq!((matched.message, matched.channel), (b"hi".to_vec(), b"ch".to_vec()));
    assert_eq!(matched.pattern, Some(b"c*".to_vec()));

    assert!(handle_push_notification(PushKind::Message, &vec![bytes(b"ch")]).is_none());
    assert!(handle_push_notification(PushKind::PMessage, &vec![bytes(b"a"), bytes(b"b")]).is_none());
    assert!(handle_push_notification(PushKind::Other, &data).is_none());

    assert_eq!(push_call(true, true, false, true), Some(false));
    assert_eq!(push_call(true, true, true, true), Some(true));
    assert_eq!(push_call(true, false, true, true), None);
    assert_eq!(push_call(true, true, true, false), None);
}

#[test]
fn elements_and_entries_are_written_one_after_the_other() {
    let three = Scalar::Int(3);
    let yes = Scalar::Boolean(true);
    let nil = Scalar::Nil;
    let first = array_payload(&vec![WireElement::Scalar(&three)]);
    let second = array_payload(&vec![WireElement::Scalar(&yes), WireElement::Scalar(&nil)]);
    let both = array_payload(&vec![
        WireElement::Scalar(&three),
        WireElement::Scalar(&yes),
        WireElement::Scalar(&nil),
    ]);
    assert_eq!(both[..5], *b"*\0\0\0\x03");
    assert_eq!(both[5..], [&first[5..], &second[5..]].concat());

    let one = (b"a".to_vec(), b"1".to_vec());
    let two = (b"b".to_vec(), b"22".to_vec());
    let first = map_payload(&vec![one.clone()]);
    let second = map_payload(&vec![two.clone()]);
    let both = map_payload(&vec![one, two]);
    assert_eq!(both[..5], *b"%\0\0\0\x02");
    assert_eq!(both[5..], [&first[5..], &second[5..]].concat());
}
