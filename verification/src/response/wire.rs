//! The bytes in which large arrays and maps are handed over.
//!
//! Every length is written in four bytes and every number in eight, the most significant first.

use vstd::prelude::*;

use crate::response::value::Scalar;

verus! {

/// `redis::Value`, a value as the server's client hands it out.
#[verifier::external_type_specification]
#[verifier::external_body]
pub struct ExValue(redis::Value);

/// The text in which `redis::Value` shows itself for debugging.
pub uninterp spec fn debug_text(value: redis::Value) -> Seq<char>;

/// Calls the `Debug` impl of `redis::Value` through `format`. The text depends on the value alone;
/// how it reads is the crate's own affair and is not stated.
#[verifier::external_body]
fn debug_form(value: &redis::Value) -> (text: String)
    ensures
        text@ == debug_text(*value),
{
    format!("{:?}", value)
}

/// An element of an array that is handed over. Elements that hold others are left as they are.
#[derive(Debug)]
pub enum ArrayElement {
    Scalar(Scalar),
    Complex(redis::Value),
}

/// A key or a value of a map that is handed over. All but bulk strings are left as they are.
#[derive(Debug)]
pub enum MapElement {
    BulkString(Vec<u8>),
    Other(redis::Value),
}

/// An element of an array as it is written: a scalar, or the text that stands for a complex value.
#[derive(Debug)]
pub enum WireElement<'a> {
    Scalar(&'a Scalar),
    Complex(String),
}

/// What is written for an element: what its reader can tell.
pub enum Meaning {
    Nil,
    Bytes(Seq<u8>),
    Text(Seq<u8>),
    Number(int),
    Double(u64),
    Boolean(bool),
    BigNumber(Seq<u8>),
    Complex(Seq<u8>),
}

/// The text that stands for success.
pub open spec fn okay() -> Seq<u8> {
    seq![79u8, 75u8]
}

/// A simple string as it is written: success in any case of letters is written in capitals.
pub open spec fn normalized(text: Seq<u8>) -> Seq<u8> {
    if crate::metrics::byte_order::upper_bytes(text) == okay() {
        okay()
    } else {
        text
    }
}

/// What is written for a scalar.
pub open spec fn scalar_meaning(value: Scalar) -> Meaning {
    match value {
        Scalar::Nil => Meaning::Nil,
        Scalar::Int(number) => Meaning::Number(number as int),
        Scalar::BulkString(data) => Meaning::Bytes(data@),
        Scalar::SimpleString(text) => Meaning::Text(normalized(vstd::utf8::encode_utf8(text@))),
        Scalar::Okay => Meaning::Text(okay()),
        Scalar::Double(bits) => Meaning::Double(bits),
        Scalar::Boolean(flag) => Meaning::Boolean(flag),
        Scalar::BigNumber(digits) => Meaning::BigNumber(vstd::utf8::encode_utf8(digits@)),
    }
}

/// What is written for an element.
pub open spec fn wire_meaning(element: WireElement) -> Meaning {
    match element {
        WireElement::Scalar(scalar) => scalar_meaning(*scalar),
        WireElement::Complex(text) => Meaning::Complex(vstd::utf8::encode_utf8(text@)),
    }
}

/// What is written for an element of an array: complex ones by the text in which they show
/// themselves.
pub open spec fn element_meaning(element: ArrayElement) -> Meaning {
    match element {
        ArrayElement::Scalar(scalar) => scalar_meaning(scalar),
        ArrayElement::Complex(value) => Meaning::Complex(
            vstd::utf8::encode_utf8(debug_text(value)),
        ),
    }
}

/// What is written for a key or a value of a map: bulk strings as they are, all else by the text in
/// which it shows itself.
pub open spec fn part_bytes(part: MapElement) -> Seq<u8> {
    match part {
        MapElement::BulkString(data) => data@,
        MapElement::Other(value) => vstd::utf8::encode_utf8(debug_text(value)),
    }
}

/// A number in four bytes, the most significant first. Higher digits are dropped.
pub open spec fn four_bytes(number: nat) -> Seq<u8> {
    seq![
        ((number / 0x1000000) % 0x100) as u8,
        ((number / 0x10000) % 0x100) as u8,
        ((number / 0x100) % 0x100) as u8,
        (number % 0x100) as u8,
    ]
}

/// A number in eight bytes, the most significant first. Higher digits are dropped.
pub open spec fn eight_bytes(number: nat) -> Seq<u8> {
    four_bytes(number / 0x1_0000_0000) + four_bytes(number)
}

/// A signed number as the unsigned one with the same 64 bits.
pub open spec fn two_complement(number: int) -> nat {
    if number < 0 {
        (number + 0x1_0000_0000_0000_0000) as nat
    } else {
        number as nat
    }
}

/// Data after its length.
pub open spec fn framed(data: Seq<u8>) -> Seq<u8> {
    four_bytes(data.len()) + data
}

/// The bytes in which something is written: a marker, and what it marks.
pub open spec fn encoded(meaning: Meaning) -> Seq<u8> {
    match meaning {
        Meaning::Nil => seq![36u8] + four_bytes(0xffff_ffff),
        Meaning::Bytes(data) => seq![36u8] + framed(data),
        Meaning::Text(text) => seq![43u8] + framed(text),
        Meaning::Number(number) => seq![58u8] + eight_bytes(two_complement(number)),
        Meaning::Double(bits) => seq![44u8] + eight_bytes(bits as nat),
        Meaning::Boolean(flag) => seq![
            63u8,
            if flag {
                1u8
            } else {
                0u8
            },
        ],
        Meaning::BigNumber(digits) => seq![40u8] + framed(digits),
        Meaning::Complex(text) => seq![35u8] + framed(text),
    }
}

/// The bytes of elements, one after the other.
pub open spec fn all_encoded(meanings: Seq<Meaning>) -> Seq<u8>
    decreases meanings.len(),
{
    if meanings.len() == 0 {
        seq![]
    } else {
        all_encoded(meanings.drop_last()) + encoded(meanings.last())
    }
}

/// The bytes of an array: a marker, the number of elements, and the elements.
pub open spec fn array_bytes(meanings: Seq<Meaning>) -> Seq<u8> {
    seq![42u8] + four_bytes(meanings.len()) + all_encoded(meanings)
}

/// The bytes of keys and values, one after the other.
pub open spec fn all_framed(entries: Seq<(Seq<u8>, Seq<u8>)>) -> Seq<u8>
    decreases entries.len(),
{
    if entries.len() == 0 {
        seq![]
    } else {
        all_framed(entries.drop_last()) + framed(entries.last().0) + framed(entries.last().1)
    }
}

/// The bytes of a map: a marker, the number of entries, and each key before its value.
pub open spec fn map_bytes(entries: Seq<(Seq<u8>, Seq<u8>)>) -> Seq<u8> {
    seq![37u8] + four_bytes(entries.len()) + all_framed(entries)
}

/// Appends a number in four bytes.
fn append_four(bytes: &mut Vec<u8>, number: u32)
    ensures
        final(bytes)@ == old(bytes)@ + four_bytes(number as nat),
{
    bytes.push(((number / 0x1000000) % 0x100) as u8);
    bytes.push(((number / 0x10000) % 0x100) as u8);
    bytes.push(((number / 0x100) % 0x100) as u8);
    bytes.push((number % 0x100) as u8);
    assert(bytes@ =~= old(bytes)@ + four_bytes(number as nat));
}

/// Appends a number in eight bytes.
fn append_eight(bytes: &mut Vec<u8>, number: u64)
    ensures
        final(bytes)@ == old(bytes)@ + eight_bytes(number as nat),
{
    append_four(bytes, (number / 0x1_0000_0000) as u32);
    append_four(bytes, (number % 0x1_0000_0000) as u32);
    proof {
        lemma_four_bytes_drop(number as nat);
        assert(bytes@ =~= old(bytes)@ + eight_bytes(number as nat));
    }
}

proof fn lemma_four_bytes_drop(number: nat)
    ensures
        four_bytes(number % 0x1_0000_0000) == four_bytes(number),
{
    let low = number % 0x1_0000_0000;
    let high = number / 0x1_0000_0000;
    assert(number == high * 0x1_0000_0000 + low);
    assert(number / 0x1000000 == high * 0x100 + low / 0x1000000);
    assert(number / 0x10000 == high * 0x10000 + low / 0x10000);
    assert(number / 0x100 == high * 0x1000000 + low / 0x100);
    lemma_low_digits(high, low / 0x1000000, 0x100);
    lemma_low_digits(high, low / 0x10000, 0x10000);
    lemma_low_digits(high, low / 0x100, 0x1000000);
    lemma_low_digits(high, low, 0x1_0000_0000);
}

/// Adding a multiple of 256 leaves the last byte as it is.
proof fn lemma_low_digits(high: nat, low: nat, unit: nat)
    requires
        unit == 0x100 || unit == 0x10000 || unit == 0x1000000 || unit == 0x1_0000_0000,
    ensures
        (high * unit + low) % 0x100 == low % 0x100,
{
    if unit == 0x100 {
        assert((high * 0x100 + low) % 0x100 == low % 0x100);
    } else if unit == 0x10000 {
        assert(((high * 0x100) * 0x100 + low) % 0x100 == low % 0x100);
    } else if unit == 0x1000000 {
        assert(((high * 0x10000) * 0x100 + low) % 0x100 == low % 0x100);
    } else {
        assert(((high * 0x1000000) * 0x100 + low) % 0x100 == low % 0x100);
    }
}

/// Appends data after its length.
fn append_framed(bytes: &mut Vec<u8>, data: &[u8])
    ensures
        final(bytes)@ == old(bytes)@ + framed(data@),
{
    let length = data.len() as u64;
    append_four(bytes, (length % 0x1_0000_0000) as u32);
    bytes.extend_from_slice(data);
    proof {
        lemma_four_bytes_drop(data@.len());
        assert(bytes@ =~= old(bytes)@ + framed(data@));
    }
}

/// A signed number as the unsigned one with the same 64 bits.
fn unsigned_bits(number: i64) -> (bits: u64)
    ensures
        bits == two_complement(number as int),
{
    if number < 0 {
        u64::MAX - ((-(number + 1)) as u64)
    } else {
        number as u64
    }
}

/// Whether a simple string stands for success, in any case of letters.
fn stands_for_okay(text: &[u8]) -> (okay: bool)
    ensures
        okay == (crate::metrics::byte_order::upper_bytes(text@) == self::okay()),
{
    let same = text.len() == 2 && (text[0] == 79 || text[0] == 111) && (text[1] == 75 || text[1]
        == 107);
    proof {
        let upper = crate::metrics::byte_order::upper_bytes(text@);
        if same {
            assert(upper =~= self::okay());
        } else if upper == self::okay() {
            assert(upper.len() == 2 && upper[0] == 79 && upper[1] == 75);
        }
    }
    same
}

/// Appends a scalar.
fn append_scalar(bytes: &mut Vec<u8>, value: &Scalar)
    ensures
        final(bytes)@ == old(bytes)@ + encoded(scalar_meaning(*value)),
{
    let ghost before = bytes@;
    match value {
        Scalar::Nil => {
            bytes.push(36);
            append_four(bytes, 0xffff_ffff);
        },
        Scalar::BulkString(data) => {
            bytes.push(36);
            append_framed(bytes, data.as_slice());
        },
        Scalar::SimpleString(text) => {
            let data = text.as_str().as_bytes();
            bytes.push(43);
            if stands_for_okay(data) {
                append_okay(bytes);
            } else {
                append_framed(bytes, data);
            }
        },
        Scalar::Okay => {
            bytes.push(43);
            append_okay(bytes);
        },
        Scalar::Int(number) => {
            bytes.push(58);
            append_eight(bytes, unsigned_bits(*number));
        },
        Scalar::Double(bits) => {
            bytes.push(44);
            append_eight(bytes, *bits);
        },
        Scalar::Boolean(flag) => {
            bytes.push(63);
            bytes.push(
                if *flag {
                    1
                } else {
                    0
                },
            );
        },
        Scalar::BigNumber(digits) => {
            bytes.push(40);
            append_framed(bytes, digits.as_str().as_bytes());
        },
    }
    assert(bytes@ =~= before + encoded(scalar_meaning(*value)));
}

/// Appends the text that stands for success, after its length.
fn append_okay(bytes: &mut Vec<u8>)
    ensures
        final(bytes)@ == old(bytes)@ + framed(okay()),
{
    append_four(bytes, 2);
    bytes.push(79);
    bytes.push(75);
    assert(bytes@ =~= old(bytes)@ + framed(okay()));
}

/// The meanings of elements.
pub open spec fn wire_meanings(elements: Seq<WireElement>) -> Seq<Meaning> {
    elements.map_values(|element: WireElement| wire_meaning(element))
}

/// Writes an array down.
pub fn array_payload(elements: &Vec<WireElement>) -> (bytes: Vec<u8>)
    ensures
        bytes@ == array_bytes(wire_meanings(elements@)),
{
    let mut bytes: Vec<u8> = Vec::new();
    bytes.push(42);
    let count = elements.len() as u64;
    append_four(&mut bytes, (count % 0x1_0000_0000) as u32);
    let ghost meanings = wire_meanings(elements@);
    proof {
        lemma_four_bytes_drop(elements@.len());
        assert(bytes@ =~= seq![42u8] + four_bytes(meanings.len()) + all_encoded(meanings.take(0)));
    }
    let mut i: usize = 0;
    while i < elements.len()
        invariant
            i <= elements@.len(),
            meanings == wire_meanings(elements@),
            bytes@ == seq![42u8] + four_bytes(meanings.len()) + all_encoded(
                meanings.take(i as int),
            ),
        decreases elements@.len() - i,
    {
        let ghost before = bytes@;
        match &elements[i] {
            WireElement::Scalar(scalar) => {
                append_scalar(&mut bytes, scalar);
            },
            WireElement::Complex(text) => {
                bytes.push(35);
                append_framed(&mut bytes, text.as_str().as_bytes());
                assert(bytes@ =~= before + encoded(meanings[i as int]));
            },
        }
        proof {
            let taken = meanings.take(i + 1);
            assert(taken.drop_last() =~= meanings.take(i as int));
            assert(taken.last() == wire_meaning(elements@[i as int]));
            assert(bytes@ =~= seq![42u8] + four_bytes(meanings.len()) + all_encoded(taken));
        }
        i = i + 1;
    }
    assert(meanings.take(i as int) =~= meanings);
    bytes
}

/// The meanings of the elements of an array.
pub open spec fn element_meanings(elements: Seq<ArrayElement>) -> Seq<Meaning> {
    elements.map_values(|element: ArrayElement| element_meaning(element))
}

/// Writes an array down. The encoding of texts makes no difference.
pub fn serialize_array_to_bytes(arr: Vec<ArrayElement>, _encoding_utf8: bool) -> (bytes: Vec<u8>)
    ensures
        bytes@ == array_bytes(element_meanings(arr@)),
{
    let mut elements: Vec<WireElement> = Vec::new();
    let mut i: usize = 0;
    while i < arr.len()
        invariant
            i <= arr@.len(),
            elements@.len() == i,
            forall|j: int|
                0 <= j < i ==> wire_meaning(#[trigger] elements@[j]) == element_meaning(arr@[j]),
        decreases arr@.len() - i,
    {
        let element = match &arr[i] {
            ArrayElement::Scalar(scalar) => WireElement::Scalar(scalar),
            ArrayElement::Complex(value) => WireElement::Complex(debug_form(value)),
        };
        elements.push(element);
        i = i + 1;
    }
    assert(wire_meanings(elements@) =~= element_meanings(arr@));
    array_payload(&elements)
}

/// Keys and values by their bytes.
pub open spec fn payload_entries(entries: Seq<(Vec<u8>, Vec<u8>)>) -> Seq<(Seq<u8>, Seq<u8>)> {
    entries.map_values(|entry: (Vec<u8>, Vec<u8>)| (entry.0@, entry.1@))
}

/// Writes a map down.
pub fn map_payload(entries: &Vec<(Vec<u8>, Vec<u8>)>) -> (bytes: Vec<u8>)
    ensures
        bytes@ == map_bytes(payload_entries(entries@)),
{
    let mut bytes: Vec<u8> = Vec::new();
    bytes.push(37);
    let count = entries.len() as u64;
    append_four(&mut bytes, (count % 0x1_0000_0000) as u32);
    let ghost parts = payload_entries(entries@);
    proof {
        lemma_four_bytes_drop(entries@.len());
        assert(bytes@ =~= seq![37u8] + four_bytes(parts.len()) + all_framed(parts.take(0)));
    }
    let mut i: usize = 0;
    while i < entries.len()
        invariant
            i <= entries@.len(),
            parts == payload_entries(entries@),
            bytes@ == seq![37u8] + four_bytes(parts.len()) + all_framed(parts.take(i as int)),
        decreases entries@.len() - i,
    {
        let entry = &entries[i];
        append_framed(&mut bytes, entry.0.as_slice());
        append_framed(&mut bytes, entry.1.as_slice());
        proof {
            let taken = parts.take(i + 1);
            assert(taken.drop_last() =~= parts.take(i as int));
            assert(taken.last() == (entry.0@, entry.1@));
            assert(bytes@ =~= seq![37u8] + four_bytes(parts.len()) + all_framed(taken));
        }
        i = i + 1;
    }
    assert(parts.take(i as int) =~= parts);
    bytes
}

/// The bytes that are written for a key or a value.
fn part_payload(part: MapElement) -> (data: Vec<u8>)
    ensures
        data@ == part_bytes(part),
{
    match part {
        MapElement::BulkString(data) => data,
        MapElement::Other(value) => {
            let text = debug_form(&value);
            let mut data: Vec<u8> = Vec::new();
            data.extend_from_slice(text.as_str().as_bytes());
            assert(data@ =~= part_bytes(part));
            data
        },
    }
}

/// Keys and values by what is written for them.
pub open spec fn element_entries(entries: Seq<(MapElement, MapElement)>) -> Seq<
    (Seq<u8>, Seq<u8>),
> {
    entries.map_values(|entry: (MapElement, MapElement)| (part_bytes(entry.0), part_bytes(entry.1)))
}

/// Writes a map down. The encoding of texts makes no difference.
pub fn serialize_map_vec_to_bytes(map: Vec<(MapElement, MapElement)>, _encoding_utf8: bool) -> (bytes:
    Vec<u8>)
    ensures
        bytes@ == map_bytes(element_entries(map@)),
{
    let mut entries: Vec<(Vec<u8>, Vec<u8>)> = Vec::new();
    for entry in iter: map
        invariant
            entries@.len() == iter.index(),
            iter.seq() == map@,
            forall|j: int|
                0 <= j < entries@.len() ==> (#[trigger] entries@[j]).0@ == part_bytes(map@[j].0)
                    && entries@[j].1@ == part_bytes(map@[j].1),
    {
        entries.push((part_payload(entry.0), part_payload(entry.1)));
    }
    assert(payload_entries(entries@) =~= element_entries(map@));
    map_payload(&entries)
}

/// Whether what is written has a length that four bytes hold, and no bulk string the one that
/// marks an absent value.
pub open spec fn meaning_fits(meaning: Meaning) -> bool {
    match meaning {
        Meaning::Bytes(data) => data.len() < 0xffff_ffff,
        Meaning::Text(text) => text.len() <= 0xffff_ffff,
        Meaning::Number(number) => i64::MIN <= number <= i64::MAX,
        Meaning::BigNumber(digits) => digits.len() <= 0xffff_ffff,
        Meaning::Complex(text) => text.len() <= 0xffff_ffff,
        _ => true,
    }
}

/// Four bytes hold every number that is not too large.
proof fn lemma_four_bytes_injective(a: nat, b: nat)
    requires
        a <= 0xffff_ffff,
        b <= 0xffff_ffff,
        four_bytes(a) == four_bytes(b),
    ensures
        a == b,
{
    let x = four_bytes(a);
    let y = four_bytes(b);
    assert(x[0] == y[0] && x[1] == y[1] && x[2] == y[2] && x[3] == y[3]);
    lemma_four_digits(a);
    lemma_four_digits(b);
}

proof fn lemma_four_digits(number: nat)
    requires
        number <= 0xffff_ffff,
    ensures
        number == four_bytes(number)[0] * 0x1000000 + four_bytes(number)[1] * 0x10000 + four_bytes(
            number,
        )[2] * 0x100 + four_bytes(number)[3],
{
}

/// Eight bytes hold every number that is not too large.
proof fn lemma_eight_bytes_injective(a: nat, b: nat)
    requires
        a <= u64::MAX,
        b <= u64::MAX,
        eight_bytes(a) == eight_bytes(b),
    ensures
        a == b,
{
    assert(four_bytes(a / 0x1_0000_0000) =~= eight_bytes(a).take(4));
    assert(four_bytes(b / 0x1_0000_0000) =~= eight_bytes(b).take(4));
    assert(four_bytes(a) =~= eight_bytes(a).skip(4));
    assert(four_bytes(b) =~= eight_bytes(b).skip(4));
    lemma_four_bytes_injective(a / 0x1_0000_0000, b / 0x1_0000_0000);
    lemma_four_bytes_drop(a);
    lemma_four_bytes_drop(b);
    lemma_four_bytes_injective(a % 0x1_0000_0000, b % 0x1_0000_0000);
}

/// Framed data ends where its length says.
proof fn lemma_framed_prefix(a: Seq<u8>, b: Seq<u8>, after_a: Seq<u8>, after_b: Seq<u8>)
    requires
        a.len() <= 0xffff_ffff,
        b.len() <= 0xffff_ffff,
        framed(a) + after_a == framed(b) + after_b,
    ensures
        a == b,
        after_a == after_b,
{
    let left = framed(a) + after_a;
    let right = framed(b) + after_b;
    assert(four_bytes(a.len()) =~= left.take(4));
    assert(four_bytes(b.len()) =~= right.take(4));
    lemma_four_bytes_injective(a.len(), b.len());
    assert(a =~= left.subrange(4, 4 + a.len() as int));
    assert(b =~= right.subrange(4, 4 + b.len() as int));
    assert(after_a =~= left.skip(4 + a.len() as int));
    assert(after_b =~= right.skip(4 + b.len() as int));
}

/// An element ends where it says, and no two that mean different things are written alike.
proof fn lemma_encoded_prefix(a: Meaning, b: Meaning, after_a: Seq<u8>, after_b: Seq<u8>)
    requires
        meaning_fits(a),
        meaning_fits(b),
        encoded(a) + after_a == encoded(b) + after_b,
    ensures
        a == b,
        after_a == after_b,
{
    let left = encoded(a) + after_a;
    let right = encoded(b) + after_b;
    assert(left[0] == encoded(a)[0]);
    assert(right[0] == encoded(b)[0]);
    match (a, b) {
        (Meaning::Nil, Meaning::Nil) => {
            assert(after_a =~= left.skip(5));
            assert(after_b =~= right.skip(5));
        },
        (Meaning::Nil, Meaning::Bytes(data)) => {
            assert(left.subrange(1, 5) =~= four_bytes(0xffff_ffff));
            assert(right.subrange(1, 5) =~= four_bytes(data.len()));
            lemma_four_bytes_injective(0xffff_ffff, data.len());
        },
        (Meaning::Bytes(data), Meaning::Nil) => {
            assert(right.subrange(1, 5) =~= four_bytes(0xffff_ffff));
            assert(left.subrange(1, 5) =~= four_bytes(data.len()));
            lemma_four_bytes_injective(0xffff_ffff, data.len());
        },
        (Meaning::Bytes(x), Meaning::Bytes(y)) => {
            lemma_marked_prefix(36, x, y, after_a, after_b);
        },
        (Meaning::Text(x), Meaning::Text(y)) => {
            lemma_marked_prefix(43, x, y, after_a, after_b);
        },
        (Meaning::BigNumber(x), Meaning::BigNumber(y)) => {
            lemma_marked_prefix(40, x, y, after_a, after_b);
        },
        (Meaning::Complex(x), Meaning::Complex(y)) => {
            lemma_marked_prefix(35, x, y, after_a, after_b);
        },
        (Meaning::Number(x), Meaning::Number(y)) => {
            assert(left.subrange(1, 9) =~= eight_bytes(two_complement(x)));
            assert(right.subrange(1, 9) =~= eight_bytes(two_complement(y)));
            lemma_eight_bytes_injective(two_complement(x), two_complement(y));
            assert(after_a =~= left.skip(9));
            assert(after_b =~= right.skip(9));
        },
        (Meaning::Double(x), Meaning::Double(y)) => {
            assert(left.subrange(1, 9) =~= eight_bytes(x as nat));
            assert(right.subrange(1, 9) =~= eight_bytes(y as nat));
            lemma_eight_bytes_injective(x as nat, y as nat);
            assert(after_a =~= left.skip(9));
            assert(after_b =~= right.skip(9));
        },
        (Meaning::Boolean(x), Meaning::Boolean(y)) => {
            assert(left[1] == encoded(a)[1]);
            assert(right[1] == encoded(b)[1]);
            assert(after_a =~= left.skip(2));
            assert(after_b =~= right.skip(2));
        },
        _ => {},
    }
}

proof fn lemma_marked_prefix(
    marker: u8,
    a: Seq<u8>,
    b: Seq<u8>,
    after_a: Seq<u8>,
    after_b: Seq<u8>,
)
    requires
        a.len() <= 0xffff_ffff,
        b.len() <= 0xffff_ffff,
        seq![marker] + framed(a) + after_a == seq![marker] + framed(b) + after_b,
    ensures
        a == b,
        after_a == after_b,
{
    let left = seq![marker] + framed(a) + after_a;
    let right = seq![marker] + framed(b) + after_b;
    assert(left.skip(1) =~= framed(a) + after_a);
    assert(right.skip(1) =~= framed(b) + after_b);
    lemma_framed_prefix(a, b, after_a, after_b);
}

proof fn lemma_all_encoded_first(meanings: Seq<Meaning>)
    requires
        meanings.len() > 0,
    ensures
        all_encoded(meanings) == encoded(meanings[0]) + all_encoded(meanings.drop_first()),
    decreases meanings.len(),
{
    if meanings.len() == 1 {
        assert(meanings.drop_first() =~= seq![]);
        assert(meanings.drop_last() =~= seq![]);
        assert(all_encoded(meanings) =~= encoded(meanings[0]) + all_encoded(meanings.drop_first()));
    } else {
        lemma_all_encoded_first(meanings.drop_last());
        assert(meanings.drop_last().drop_first() =~= meanings.drop_first().drop_last());
        assert(all_encoded(meanings) =~= encoded(meanings[0]) + all_encoded(meanings.drop_first()));
    }
}

proof fn lemma_all_encoded_injective(a: Seq<Meaning>, b: Seq<Meaning>)
    requires
        a.len() == b.len(),
        forall|i: int| 0 <= i < a.len() ==> meaning_fits(#[trigger] a[i]),
        forall|i: int| 0 <= i < b.len() ==> meaning_fits(#[trigger] b[i]),
        all_encoded(a) == all_encoded(b),
    ensures
        a == b,
    decreases a.len(),
{
    if a.len() == 0 {
        assert(a =~= b);
    } else {
        lemma_all_encoded_first(a);
        lemma_all_encoded_first(b);
        lemma_encoded_prefix(
            a[0],
            b[0],
            all_encoded(a.drop_first()),
            all_encoded(b.drop_first()),
        );
        lemma_all_encoded_injective(a.drop_first(), b.drop_first());
        assert(a =~= seq![a[0]] + a.drop_first());
        assert(b =~= seq![b[0]] + b.drop_first());
        assert(a =~= b);
    }
}

/// Two arrays are written alike only where they mean the same, element by element: the bytes lose
/// nothing but the way in which success was spelt. All lengths must fit in four bytes.
pub proof fn law_array_bytes_are_faithful(a: Seq<Meaning>, b: Seq<Meaning>)
    requires
        a.len() <= 0xffff_ffff,
        b.len() <= 0xffff_ffff,
        forall|i: int| 0 <= i < a.len() ==> meaning_fits(#[trigger] a[i]),
        forall|i: int| 0 <= i < b.len() ==> meaning_fits(#[trigger] b[i]),
        array_bytes(a) == array_bytes(b),
    ensures
        a == b,
{
    let left = array_bytes(a);
    let right = array_bytes(b);
    assert(left.subrange(1, 5) =~= four_bytes(a.len()));
    assert(right.subrange(1, 5) =~= four_bytes(b.len()));
    lemma_four_bytes_injective(a.len(), b.len());
    assert(left.skip(5) =~= all_encoded(a));
    assert(right.skip(5) =~= all_encoded(b));
    lemma_all_encoded_injective(a, b);
}

proof fn lemma_all_framed_first(entries: Seq<(Seq<u8>, Seq<u8>)>)
    requires
        entries.len() > 0,
    ensures
        all_framed(entries) == framed(entries[0].0) + (framed(entries[0].1) + all_framed(
            entries.drop_first(),
        )),
    decreases entries.len(),
{
    if entries.len() == 1 {
        assert(entries.drop_first() =~= seq![]);
        assert(entries.drop_last() =~= seq![]);
    } else {
        lemma_all_framed_first(entries.drop_last());
        assert(entries.drop_last().drop_first() =~= entries.drop_first().drop_last());
    }
    assert(all_framed(entries) =~= framed(entries[0].0) + (framed(entries[0].1) + all_framed(
        entries.drop_first(),
    )));
}

/// Whether keys and values have lengths that four bytes hold.
pub open spec fn entries_fit(entries: Seq<(Seq<u8>, Seq<u8>)>) -> bool {
    forall|i: int|
        0 <= i < entries.len() ==> (#[trigger] entries[i]).0.len() <= 0xffff_ffff
            && entries[i].1.len() <= 0xffff_ffff
}

proof fn lemma_all_framed_injective(a: Seq<(Seq<u8>, Seq<u8>)>, b: Seq<(Seq<u8>, Seq<u8>)>)
    requires
        a.len() == b.len(),
        entries_fit(a),
        entries_fit(b),
        all_framed(a) == all_framed(b),
    ensures
        a == b,
    decreases a.len(),
{
    if a.len() > 0 {
        lemma_all_framed_first(a);
        lemma_all_framed_first(b);
        let rest_a = all_framed(a.drop_first());
        let rest_b = all_framed(b.drop_first());
        lemma_framed_prefix(a[0].0, b[0].0, framed(a[0].1) + rest_a, framed(b[0].1) + rest_b);
        lemma_framed_prefix(a[0].1, b[0].1, rest_a, rest_b);
        lemma_all_framed_injective(a.drop_first(), b.drop_first());
        assert(a =~= seq![a[0]] + a.drop_first());
        assert(b =~= seq![b[0]] + b.drop_first());
    }
    assert(a =~= b);
}

/// Two maps are written alike only where they hold the same bytes in the same order. All lengths
/// must fit in four bytes.
pub proof fn law_map_bytes_are_faithful(a: Seq<(Seq<u8>, Seq<u8>)>, b: Seq<(Seq<u8>, Seq<u8>)>)
    requires
        a.len() <= 0xffff_ffff,
        b.len() <= 0xffff_ffff,
        entries_fit(a),
        entries_fit(b),
        map_bytes(a) == map_bytes(b),
    ensures
        a == b,
{
    let left = map_bytes(a);
    let right = map_bytes(b);
    assert(left.subrange(1, 5) =~= four_bytes(a.len()));
    assert(right.subrange(1, 5) =~= four_bytes(b.len()));
    lemma_four_bytes_injective(a.len(), b.len());
    assert(left.skip(5) =~= all_framed(a));
    assert(right.skip(5) =~= all_framed(b));
    lemma_all_framed_injective(a, b);
}

proof fn lemma_all_encoded_joins(a: Seq<Meaning>, b: Seq<Meaning>)
    ensures
        all_encoded(a + b) == all_encoded(a) + all_encoded(b),
    decreases b.len(),
{
    if b.len() == 0 {
        assert(a + b =~= a);
    } else {
        lemma_all_encoded_joins(a, b.drop_last());
        assert((a + b).drop_last() =~= a + b.drop_last());
        assert((a + b).last() == b.last());
    }
}

/// After the header, the bytes of an array are those of its elements in their order: those of two
/// arrays put together are the bytes of the first, followed by those of the second.
pub proof fn law_array_bytes_join(a: Seq<Meaning>, b: Seq<Meaning>)
    ensures
        all_encoded(a + b) == all_encoded(a) + all_encoded(b),
        array_bytes(a).skip(5) == all_encoded(a),
        array_bytes(a + b).skip(5) == array_bytes(a).skip(5) + array_bytes(b).skip(5),
        array_bytes(a + b).take(5) == seq![42u8] + four_bytes(a.len() + b.len()),
{
    lemma_all_encoded_joins(a, b);
    assert(array_bytes(a).skip(5) =~= all_encoded(a));
    assert(array_bytes(b).skip(5) =~= all_encoded(b));
    assert(array_bytes(a + b).skip(5) =~= all_encoded(a + b));
    assert(array_bytes(a + b).take(5) =~= seq![42u8] + four_bytes(a.len() + b.len()));
}

proof fn lemma_all_framed_joins(a: Seq<(Seq<u8>, Seq<u8>)>, b: Seq<(Seq<u8>, Seq<u8>)>)
    ensures
        all_framed(a + b) == all_framed(a) + all_framed(b),
    decreases b.len(),
{
    if b.len() == 0 {
        assert(a + b =~= a);
    } else {
        lemma_all_framed_joins(a, b.drop_last());
        assert((a + b).drop_last() =~= a + b.drop_last());
        assert((a + b).last() == b.last());
        assert(all_framed(a + b) =~= all_framed(a) + all_framed(b));
    }
}

/// After the header, the bytes of a map are those of its entries in their order: those of two maps
/// put together are the bytes of the first, followed by those of the second.
pub proof fn law_map_bytes_join(a: Seq<(Seq<u8>, Seq<u8>)>, b: Seq<(Seq<u8>, Seq<u8>)>)
    ensures
        all_framed(a + b) == all_framed(a) + all_framed(b),
        map_bytes(a).skip(5) == all_framed(a),
        map_bytes(a + b).skip(5) == map_bytes(a).skip(5) + map_bytes(b).skip(5),
        map_bytes(a + b).take(5) == seq![37u8] + four_bytes(a.len() + b.len()),
{
    lemma_all_framed_joins(a, b);
    assert(map_bytes(a).skip(5) =~= all_framed(a));
    assert(map_bytes(b).skip(5) =~= all_framed(b));
    assert(map_bytes(a + b).skip(5) =~= all_framed(a + b));
    assert(map_bytes(a + b).take(5) =~= seq![37u8] + four_bytes(a.len() + b.len()));
}

/// Success is written alike, however it was spelt.
pub proof fn law_okay_is_written_alike(text: String)
    requires
        crate::metrics::byte_order::upper_bytes(vstd::utf8::encode_utf8(text@)) == okay(),
    ensures
        encoded(scalar_meaning(Scalar::SimpleString(text))) == encoded(scalar_meaning(Scalar::Okay)),
{
}

/// The number that is read from four bytes, the most significant first.
pub open spec fn read_four(bytes: Seq<u8>, at: int) -> int {
    bytes[at] * 0x100_0000 + bytes[at + 1] * 0x1_0000 + bytes[at + 2] * 0x100 + bytes[at + 3]
}

/// The number that is read from eight bytes, the most significant first.
pub open spec fn read_eight(bytes: Seq<u8>, at: int) -> int {
    read_four(bytes, at) * 0x1_0000_0000 + read_four(bytes, at + 4)
}

/// Whether the bytes are a marker, the length of the data as far as four bytes hold it, and the data
/// itself.
pub open spec fn reads_as(bytes: Seq<u8>, marker: u8, data: Seq<u8>) -> bool {
    &&& bytes.len() == 5 + data.len()
    &&& bytes[0] == marker
    &&& read_four(bytes, 1) == data.len() % 0x1_0000_0000
    &&& bytes.skip(5) == data
}

/// Whether a text spells success, in any case of letters.
pub open spec fn spells_success(text: Seq<u8>) -> bool {
    &&& text.len() == 2
    &&& text[0] == 79 || text[0] == 111
    &&& text[1] == 75 || text[1] == 107
}

/// A reader of the bytes of a scalar finds the scalar: its marker, and then its own bytes, its own
/// number or its own flag. Only success is rewritten, in capitals.
pub proof fn law_scalars_are_read_back(value: Scalar)
    ensures
        ({
            let bytes = encoded(scalar_meaning(value));
            match value {
                Scalar::Nil => bytes.len() == 5 && bytes[0] == 36 && read_four(bytes, 1)
                    == 0xffff_ffff,
                Scalar::BulkString(data) => reads_as(bytes, 36, data@),
                Scalar::SimpleString(text) => {
                    let own = vstd::utf8::encode_utf8(text@);
                    if spells_success(own) {
                        reads_as(bytes, 43, seq![79u8, 75u8])
                    } else {
                        reads_as(bytes, 43, own)
                    }
                },
                Scalar::Okay => reads_as(bytes, 43, seq![79u8, 75u8]),
                Scalar::Int(number) => bytes.len() == 9 && bytes[0] == 58 && read_eight(bytes, 1)
                    == (if number >= 0 {
                    number as int
                } else {
                    number + 0x1_0000_0000_0000_0000
                }),
                Scalar::Double(bits) => bytes.len() == 9 && bytes[0] == 44 && read_eight(bytes, 1)
                    == bits,
                Scalar::Boolean(flag) => bytes.len() == 2 && bytes[0] == 63 && bytes[1] == (if flag {
                    1u8
                } else {
                    0u8
                }),
                Scalar::BigNumber(digits) => reads_as(
                    bytes,
                    40,
                    vstd::utf8::encode_utf8(digits@),
                ),
            }
        }),
{
    let bytes = encoded(scalar_meaning(value));
    match value {
        Scalar::Nil => {
            lemma_four_digits(0xffff_ffff);
        },
        Scalar::BulkString(data) => {
            lemma_marked_reads(36, data@);
        },
        Scalar::SimpleString(text) => {
            let own = vstd::utf8::encode_utf8(text@);
            lemma_spells_success(own);
            lemma_marked_reads(43, own);
            lemma_marked_reads(43, okay());
        },
        Scalar::Okay => {
            lemma_marked_reads(43, okay());
        },
        Scalar::Int(number) => {
            lemma_eight_digits(two_complement(number as int), 58);
        },
        Scalar::Double(bits) => {
            lemma_eight_digits(bits as nat, 44);
        },
        Scalar::Boolean(_) => {},
        Scalar::BigNumber(digits) => {
            lemma_marked_reads(40, vstd::utf8::encode_utf8(digits@));
        },
    }
}

proof fn lemma_spells_success(text: Seq<u8>)
    ensures
        crate::metrics::byte_order::upper_bytes(text) == okay() <==> spells_success(text),
{
    let upper = crate::metrics::byte_order::upper_bytes(text);
    if spells_success(text) {
        assert(upper =~= okay());
    }
    if upper == okay() {
        assert(upper.len() == 2 && upper[0] == 79 && upper[1] == 75);
    }
}

proof fn lemma_marked_reads(marker: u8, data: Seq<u8>)
    ensures
        reads_as(seq![marker] + framed(data), marker, data),
{
    let bytes = seq![marker] + framed(data);
    assert(bytes.skip(5) =~= data);
    lemma_low_four_digits(data.len());
}

proof fn lemma_low_four_digits(number: nat)
    ensures
        read_four(four_bytes(number), 0) == number % 0x1_0000_0000,
{
    lemma_four_bytes_drop(number);
    lemma_four_digits(number % 0x1_0000_0000);
}

proof fn lemma_eight_digits(number: nat, marker: u8)
    requires
        number <= u64::MAX,
    ensures
        read_eight(seq![marker] + eight_bytes(number), 1) == number,
{
    lemma_four_digits(number / 0x1_0000_0000);
    lemma_four_bytes_drop(number);
    lemma_four_digits(number % 0x1_0000_0000);
}

/// An element is written as its scalar, and a complex one by the text in which it shows itself.
pub proof fn law_elements_are_written_as_their_scalars(
    scalar: Scalar,
    text: String,
    value: redis::Value,
)
    ensures
        element_meaning(ArrayElement::Scalar(scalar)) == scalar_meaning(scalar),
        wire_meaning(WireElement::Scalar(&scalar)) == scalar_meaning(scalar),
        reads_as(
            encoded(wire_meaning(WireElement::Complex(text))),
            35,
            vstd::utf8::encode_utf8(text@),
        ),
        reads_as(
            encoded(element_meaning(ArrayElement::Complex(value))),
            35,
            vstd::utf8::encode_utf8(debug_text(value)),
        ),
{
    lemma_marked_reads(35, vstd::utf8::encode_utf8(text@));
    lemma_marked_reads(35, vstd::utf8::encode_utf8(debug_text(value)));
}

/// An array begins with its marker and the number of its elements, and an array of one element goes
/// on with the bytes of that element. All others follow by `law_array_bytes_join`.
pub proof fn law_array_header_counts(meanings: Seq<Meaning>, meaning: Meaning)
    ensures
        array_bytes(meanings)[0] == 42,
        read_four(array_bytes(meanings), 1) == meanings.len() % 0x1_0000_0000,
        array_bytes(seq![]).len() == 5,
        array_bytes(seq![meaning]).skip(5) == encoded(meaning),
{
    lemma_low_four_digits(meanings.len());
    reveal_with_fuel(all_encoded, 2);
    assert(seq![meaning].drop_last() =~= seq![]);
    assert(array_bytes(seq![meaning]).skip(5) =~= encoded(meaning));
}

/// The elements of an array are written each by itself, in their order.
pub proof fn law_elements_keep_their_places(
    elements: Seq<ArrayElement>,
    wire: Seq<WireElement>,
)
    ensures
        element_meanings(elements).len() == elements.len(),
        forall|i: int|
            0 <= i < elements.len() ==> #[trigger] element_meanings(elements)[i] == element_meaning(
                elements[i],
            ),
        wire_meanings(wire).len() == wire.len(),
        forall|i: int|
            0 <= i < wire.len() ==> #[trigger] wire_meanings(wire)[i] == wire_meaning(wire[i]),
{
}

/// Whether a scalar stands for success.
pub open spec fn stands_for_success(value: Scalar) -> bool {
    match value {
        Scalar::Okay => true,
        Scalar::SimpleString(text) => spells_success(vstd::utf8::encode_utf8(text@)),
        _ => false,
    }
}

/// Whether two scalars are the same, but for the spelling of success.
pub open spec fn same_scalar(a: Scalar, b: Scalar) -> bool {
    ||| stands_for_success(a) && stands_for_success(b)
    ||| match (a, b) {
        (Scalar::Nil, Scalar::Nil) => true,
        (Scalar::Okay, Scalar::Okay) => true,
        (Scalar::Int(x), Scalar::Int(y)) => x == y,
        (Scalar::BulkString(x), Scalar::BulkString(y)) => x@ == y@,
        (Scalar::SimpleString(x), Scalar::SimpleString(y)) => x@ == y@,
        (Scalar::Double(x), Scalar::Double(y)) => x == y,
        (Scalar::Boolean(x), Scalar::Boolean(y)) => x == y,
        (Scalar::BigNumber(x), Scalar::BigNumber(y)) => x@ == y@,
        _ => false,
    }
}

/// Whether a scalar has a length that four bytes hold, and is no bulk string whose length marks an
/// absent value.
pub open spec fn scalar_fits(value: Scalar) -> bool {
    match value {
        Scalar::BulkString(data) => data@.len() < 0xffff_ffff,
        Scalar::SimpleString(text) => vstd::utf8::encode_utf8(text@).len() <= 0xffff_ffff,
        Scalar::BigNumber(digits) => vstd::utf8::encode_utf8(digits@).len() <= 0xffff_ffff,
        _ => true,
    }
}

proof fn lemma_utf8_is_injective(a: Seq<char>, b: Seq<char>)
    ensures
        vstd::utf8::encode_utf8(a) == vstd::utf8::encode_utf8(b) <==> a == b,
{
    vstd::utf8::encode_utf8_decode_utf8(a);
    vstd::utf8::encode_utf8_decode_utf8(b);
}

proof fn lemma_same_meaning_same_scalar(a: Scalar, b: Scalar)
    ensures
        scalar_meaning(a) == scalar_meaning(b) <==> same_scalar(a, b),
        scalar_fits(a) ==> meaning_fits(scalar_meaning(a)),
{
    match (a, b) {
        (Scalar::SimpleString(x), Scalar::SimpleString(y)) => {
            lemma_utf8_is_injective(x@, y@);
        },
        (Scalar::BigNumber(x), Scalar::BigNumber(y)) => {
            lemma_utf8_is_injective(x@, y@);
        },
        _ => {},
    }
    match a {
        Scalar::SimpleString(text) => {
            lemma_spells_success(vstd::utf8::encode_utf8(text@));
        },
        _ => {},
    }
    match b {
        Scalar::SimpleString(text) => {
            lemma_spells_success(vstd::utf8::encode_utf8(text@));
        },
        _ => {},
    }
    lemma_spells_success(okay());
}

/// The bytes of an array determine its scalars: two arrays of scalars that are written alike have as
/// many elements, and these are the same one by one, but for the spelling of success. Arrays that
/// are the same in this way are written alike. All lengths must fit in four bytes.
pub proof fn law_array_bytes_determine_the_scalars(a: Seq<Scalar>, b: Seq<Scalar>)
    requires
        a.len() <= 0xffff_ffff,
        b.len() <= 0xffff_ffff,
        forall|i: int| 0 <= i < a.len() ==> scalar_fits(#[trigger] a[i]),
        forall|i: int| 0 <= i < b.len() ==> scalar_fits(#[trigger] b[i]),
    ensures
        ({
            let first = element_meanings(a.map_values(|value: Scalar| ArrayElement::Scalar(value)));
            let second = element_meanings(b.map_values(|value: Scalar| ArrayElement::Scalar(value)));
            array_bytes(first) == array_bytes(second) <==> a.len() == b.len() && forall|i: int|
                0 <= i < a.len() ==> same_scalar(#[trigger] a[i], b[i])
        }),
{
    let first = element_meanings(a.map_values(|value: Scalar| ArrayElement::Scalar(value)));
    let second = element_meanings(b.map_values(|value: Scalar| ArrayElement::Scalar(value)));
    assert forall|i: int| 0 <= i < a.len() implies meaning_fits(#[trigger] first[i]) && first[i]
        == scalar_meaning(a[i]) by {
        assert(scalar_fits(a[i]));
        lemma_same_meaning_same_scalar(a[i], a[i]);
    }
    assert forall|i: int| 0 <= i < b.len() implies meaning_fits(#[trigger] second[i]) && second[i]
        == scalar_meaning(b[i]) by {
        assert(scalar_fits(b[i]));
        lemma_same_meaning_same_scalar(b[i], b[i]);
    }
    if array_bytes(first) == array_bytes(second) {
        law_array_bytes_are_faithful(first, second);
        assert forall|i: int| 0 <= i < a.len() implies same_scalar(#[trigger] a[i], b[i]) by {
            assert(first[i] == second[i]);
            lemma_same_meaning_same_scalar(a[i], b[i]);
        }
    }
    if a.len() == b.len() && forall|i: int|
        0 <= i < a.len() ==> same_scalar(#[trigger] a[i], b[i]) {
        assert forall|i: int| 0 <= i < a.len() implies first[i] == second[i] by {
            assert(same_scalar(a[i], b[i]));
            lemma_same_meaning_same_scalar(a[i], b[i]);
        }
        assert(first =~= second);
    }
}

/// A map begins with its marker and the number of its entries, and a map of one entry goes on with
/// the length and the bytes of the key, and then of the value. All others follow by
/// `law_map_bytes_join`.
pub proof fn law_map_header_counts(
    entries: Seq<(Seq<u8>, Seq<u8>)>,
    key: Seq<u8>,
    value: Seq<u8>,
)
    ensures
        map_bytes(entries)[0] == 37,
        read_four(map_bytes(entries), 1) == entries.len() % 0x1_0000_0000,
        map_bytes(seq![]).len() == 5,
        ({
            let bytes = map_bytes(seq![(key, value)]);
            &&& bytes.len() == 13 + key.len() + value.len()
            &&& read_four(bytes, 5) == key.len() % 0x1_0000_0000
            &&& bytes.subrange(9, 9 + key.len() as int) == key
            &&& read_four(bytes, 9 + key.len() as int) == value.len() % 0x1_0000_0000
            &&& bytes.skip(13 + key.len() as int) == value
        }),
{
    lemma_low_four_digits(entries.len());
    lemma_low_four_digits(key.len());
    lemma_low_four_digits(value.len());
    let one = seq![(key, value)];
    reveal_with_fuel(all_framed, 2);
    assert(one.drop_last() =~= seq![]);
    let bytes = map_bytes(one);
    assert(bytes =~= seq![37u8] + four_bytes(1) + (framed(key) + framed(value)));
    assert(bytes.subrange(9, 9 + key.len() as int) =~= key);
    assert(bytes.skip(13 + key.len() as int) =~= value);
}

/// Keys and values are written as they are where they are bulk strings, and by the text in which
/// they show themselves where they are not, each in its place.
pub proof fn law_entries_are_written_as_they_are(
    entries: Seq<(MapElement, MapElement)>,
    payloads: Seq<(Vec<u8>, Vec<u8>)>,
    data: Vec<u8>,
    value: redis::Value,
)
    ensures
        part_bytes(MapElement::BulkString(data)) == data@,
        part_bytes(MapElement::Other(value)) == vstd::utf8::encode_utf8(debug_text(value)),
        element_entries(entries).len() == entries.len(),
        forall|i: int|
            0 <= i < entries.len() ==> #[trigger] element_entries(entries)[i] == (
                part_bytes(entries[i].0),
                part_bytes(entries[i].1),
            ),
        payload_entries(payloads).len() == payloads.len(),
        forall|i: int|
            0 <= i < payloads.len() ==> #[trigger] payload_entries(payloads)[i] == (
                payloads[i].0@,
                payloads[i].1@,
            ),
{
}

} // verus!
