//! How many worker threads are started.

use vstd::prelude::*;

verus! {

/// The runtime threads where nothing else is configured. A connection needs two: its reader must
/// run beside those that send.
pub const DEFAULT_RUNTIME_WORKER_THREADS: usize = 2;

/// The callback threads where nothing else is configured.
pub const DEFAULT_CALLBACK_WORKER_THREADS: usize = 2;

/// Whether a byte is a decimal digit.
pub open spec fn is_digit(byte: u8) -> bool {
    48 <= byte <= 57
}

/// The number that decimal digits stand for.
pub open spec fn digits_value(digits: Seq<u8>) -> nat
    decreases digits.len(),
{
    if digits.len() == 0 {
        0
    } else {
        digits_value(digits.drop_last()) * 10 + (digits.last() - 48) as nat
    }
}

/// The digits of a number that may have a plus sign.
pub open spec fn digits_of(text: Seq<u8>) -> Seq<u8> {
    if text.len() > 0 && text[0] == 43 {
        text.drop_first()
    } else {
        text
    }
}

/// The number that a text stands for: decimal digits, at least one, after an optional plus sign,
/// and no more than a machine word holds.
pub open spec fn parsed_count(text: Seq<u8>) -> Option<usize> {
    let digits = digits_of(text);
    if digits.len() > 0 && (forall|i: int| 0 <= i < digits.len() ==> is_digit(#[trigger] digits[i]))
        && digits_value(digits) <= usize::MAX {
        Some(digits_value(digits) as usize)
    } else {
        None
    }
}

/// Reads a number.
pub fn parse_count(text: &str) -> (count: Option<usize>)
    ensures
        count == parsed_count(vstd::utf8::encode_utf8(text@)),
{
    let bytes = text.as_bytes();
    let ghost digits = digits_of(bytes@);
    let start: usize = if bytes.len() > 0 && bytes[0] == 43 {
        1
    } else {
        0
    };
    assert(digits =~= bytes@.skip(start as int));
    if start == bytes.len() {
        return None;
    }
    let mut value: usize = 0;
    let mut i: usize = start;
    while i < bytes.len()
        invariant
            bytes@ == vstd::utf8::encode_utf8(text@),
            start <= i <= bytes@.len(),
            start < bytes@.len(),
            start <= 1,
            digits == bytes@.skip(start as int),
            digits == digits_of(bytes@),
            forall|j: int| 0 <= j < i - start ==> is_digit(#[trigger] digits[j]),
            value == digits_value(digits.take(i - start)),
        decreases bytes@.len() - i,
    {
        let byte = bytes[i];
        assert(digits[i - start] == byte);
        if byte < 48 || byte > 57 {
            return None;
        }
        proof {
            let longer = digits.take(i - start + 1);
            assert(longer.drop_last() =~= digits.take(i - start));
            assert(longer.last() == byte);
            lemma_value_grows(digits, i - start + 1);
            assert(digits_value(longer) == value * 10 + (byte - 48));
        }
        let next = match value.checked_mul(10) {
            Some(tens) => match tens.checked_add((byte - 48) as usize) {
                Some(next) => next,
                None => {
                    assert(!(forall|j: int| 0 <= j < digits.len() ==> is_digit(#[trigger] digits[j]))
                        || digits_value(digits) > usize::MAX);
                    return None;
                },
            },
            None => {
                assert(!(forall|j: int| 0 <= j < digits.len() ==> is_digit(#[trigger] digits[j]))
                    || digits_value(digits) > usize::MAX);
                return None;
            },
        };
        value = next;
        i = i + 1;
    }
    assert(digits.take(i - start) =~= digits);
    Some(value)
}

proof fn lemma_value_grows(digits: Seq<u8>, count: int)
    requires
        0 <= count <= digits.len(),
    ensures
        (forall|j: int| 0 <= j < digits.len() ==> is_digit(#[trigger] digits[j])) ==> digits_value(
            digits.take(count),
        ) <= digits_value(digits),
    decreases digits.len(),
{
    if forall|j: int| 0 <= j < digits.len() ==> is_digit(#[trigger] digits[j]) {
        if count == digits.len() {
            assert(digits.take(count) =~= digits);
        } else {
            let shorter = digits.drop_last();
            assert(shorter.take(count) =~= digits.take(count));
            lemma_value_grows(shorter, count);
            assert(is_digit(digits[digits.len() - 1]));
        }
    }
}

/// The number of runtime threads: what is configured, where that is a number, and the default
/// otherwise.
pub fn runtime_worker_threads(configured: Option<&str>) -> (threads: usize)
    ensures
        threads == (match configured {
            Some(text) => match parsed_count(vstd::utf8::encode_utf8(text@)) {
                Some(count) => count,
                None => DEFAULT_RUNTIME_WORKER_THREADS,
            },
            None => DEFAULT_RUNTIME_WORKER_THREADS,
        }),
        configured is None ==> threads >= 2,
{
    match configured {
        Some(text) => match parse_count(text) {
            Some(count) => count,
            None => DEFAULT_RUNTIME_WORKER_THREADS,
        },
        None => DEFAULT_RUNTIME_WORKER_THREADS,
    }
}

/// The number of runtime threads that may block: two for each that runs tasks.
pub fn max_blocking_threads(workers: usize) -> (threads: usize)
    requires
        workers * 2 <= usize::MAX,
    ensures
        threads == workers * 2,
{
    workers * 2
}

/// The number of callback threads: what is configured, where that is a number, and the default
/// otherwise; never none.
pub fn get_callback_worker_threads(configured: Option<&str>) -> (threads: usize)
    ensures
        threads == (match configured {
            Some(text) => match parsed_count(vstd::utf8::encode_utf8(text@)) {
                Some(count) => if count < 1 {
                    1
                } else {
                    count
                },
                None => DEFAULT_CALLBACK_WORKER_THREADS,
            },
            None => DEFAULT_CALLBACK_WORKER_THREADS,
        }),
        threads >= 1,
{
    match configured {
        Some(text) => match parse_count(text) {
            Some(count) => {
                if count < 1 {
                    1
                } else {
                    count
                }
            },
            None => DEFAULT_CALLBACK_WORKER_THREADS,
        },
        None => DEFAULT_CALLBACK_WORKER_THREADS,
    }
}

/// A count is read exactly from one or more decimal digits, after a plus sign or none, that stand for
/// a number which a machine word holds; and as that number.
pub proof fn law_counts_are_read_from_digits(text: Seq<u8>)
    ensures
        ({
            let digits = text.len() > 0 && forall|i: int|
                0 <= i < text.len() ==> 48 <= #[trigger] text[i] <= 57;
            &&& digits && digits_value(text) <= usize::MAX ==> (parsed_count(text) matches Some(
                count,
            ) && count == digits_value(text))
            &&& digits && digits_value(text) > usize::MAX ==> parsed_count(text) is None
            &&& digits ==> parsed_count(seq![43u8] + text) == parsed_count(text)
            &&& !digits && (text.len() == 0 || text[0] != 43) ==> parsed_count(text) is None
            &&& !digits ==> parsed_count(seq![43u8] + text) is None
        }),
{
    let signed = seq![43u8] + text;
    assert(digits_of(signed) =~= text);
    if text.len() > 0 && forall|i: int| 0 <= i < text.len() ==> 48 <= #[trigger] text[i] <= 57 {
        assert(text[0] != 43);
        assert forall|i: int| 0 <= i < text.len() implies is_digit(#[trigger] text[i]) by {}
    } else if text.len() > 0 {
        let bad = choose|i: int| 0 <= i < text.len() && !(48 <= #[trigger] text[i] <= 57);
        assert(!is_digit(text[bad]));
    }
}

/// Digits count by their places: the last one for itself, those before it ten times.
pub proof fn law_digits_count_by_their_places(digits: Seq<u8>, last: u8)
    requires
        48 <= last <= 57,
    ensures
        digits_value(seq![]) == 0,
        digits_value(digits.push(last)) == 10 * digits_value(digits) + (last - 48),
{
    assert(digits.push(last).drop_last() =~= digits);
}

/// Two runtime threads and two callback threads are started where nothing else is configured.
pub proof fn law_default_threads()
    ensures
        DEFAULT_RUNTIME_WORKER_THREADS == 2,
        DEFAULT_CALLBACK_WORKER_THREADS == 2,
{
}

} // verus!
