//! Counters: saturating totals and the count of buffered samples.

use vstd::prelude::*;

verus! {

/// What a 64-bit saturating counter holds after `increment` is added to `value`.
pub open spec fn saturated_u64(value: u64, increment: u64) -> u64 {
    if value + increment > u64::MAX {
        u64::MAX
    } else {
        (value + increment) as u64
    }
}

/// What a 32-bit saturating counter holds after `increment` is added to `value`.
pub open spec fn saturated_u32(value: u32, increment: u32) -> u32 {
    if value + increment > u32::MAX {
        u32::MAX
    } else {
        (value + increment) as u32
    }
}

/// Adds to a counter that stops at `u64::MAX`.
pub fn saturating_add_u64(value: &mut u64, increment: u64)
    ensures
        *final(value) == saturated_u64(*old(value), increment),
{
    *value = value.saturating_add(increment);
}

/// Adds to a counter that stops at `u32::MAX`.
pub fn saturating_add_u32(value: &mut u32, increment: u32)
    ensures
        *final(value) == saturated_u32(*old(value), increment),
{
    *value = value.saturating_add(increment);
}

/// The count of buffered samples after one more was published.
pub open spec fn incremented(current: usize) -> usize {
    if current == usize::MAX {
        0
    } else {
        (current + 1) as usize
    }
}

/// The count of buffered samples after one was taken out.
pub open spec fn decremented(current: usize) -> usize {
    if current == 0 {
        usize::MAX
    } else {
        (current - 1) as usize
    }
}

/// The number of samples that a count stands for: a count in the upper half of the range is a
/// debt and stands for none.
pub open spec fn snapshot(value: usize) -> usize {
    if value <= isize::MAX {
        value
    } else {
        0
    }
}

/// The count after one sample was taken out. A count of zero becomes a debt of one.
pub fn buffered_count_after_decrement(current: usize) -> (count: usize)
    ensures
        count == decremented(current),
{
    current.wrapping_sub(1)
}

/// Counts one published sample.
pub fn increment_buffered(value: &mut usize)
    ensures
        *final(value) == incremented(*old(value)),
{
    *value = value.wrapping_add(1);
}

/// Uncounts one sample that was taken out.
pub fn decrement_buffered(value: &mut usize)
    ensures
        *final(value) == decremented(*old(value)),
{
    *value = buffered_count_after_decrement(*value);
}

/// The number of samples that a count stands for.
///
/// A consumer can take a sample out after it was published and before its producer counted it.
/// Wrapping subtraction holds that debt until the producer's increment settles it; meanwhile the
/// count reads as zero.
pub fn buffered_count_snapshot(value: usize) -> (count: usize)
    ensures
        count == snapshot(value),
{
    if value <= isize::MAX as usize {
        value
    } else {
        0
    }
}

/// A change to the count of buffered samples, made by a producer or by the consumer.
pub enum CountEvent {
    Counted,
    Received,
}

/// The count after the events, from an empty buffer.
pub open spec fn count_after(events: Seq<CountEvent>) -> usize
    decreases events.len(),
{
    if events.len() == 0 {
        0
    } else {
        match events.last() {
            CountEvent::Counted => incremented(count_after(events.drop_last())),
            CountEvent::Received => decremented(count_after(events.drop_last())),
        }
    }
}

/// How many samples were counted beyond those that were received; negative while there is a debt.
pub open spec fn net_count(events: Seq<CountEvent>) -> int
    decreases events.len(),
{
    if events.len() == 0 {
        0
    } else {
        match events.last() {
            CountEvent::Counted => net_count(events.drop_last()) + 1,
            CountEvent::Received => net_count(events.drop_last()) - 1,
        }
    }
}

/// In whatever order producers count and the consumer receives, the count holds their difference,
/// and its snapshot is that difference or, while there is a debt, zero.
pub proof fn law_count_holds_the_difference(events: Seq<CountEvent>)
    requires
        events.len() <= isize::MAX,
    ensures
        -(events.len() as int) <= net_count(events) <= events.len(),
        net_count(events) >= 0 ==> count_after(events) == net_count(events),
        net_count(events) < 0 ==> count_after(events) == net_count(events) + usize::MAX + 1,
        snapshot(count_after(events)) == (if net_count(events) >= 0 {
            net_count(events)
        } else {
            0
        }),
    decreases events.len(),
{
    if events.len() > 0 {
        law_count_holds_the_difference(events.drop_last());
    }
}

/// Only how many samples were counted and received matters, not who came first: a debt is settled
/// as soon as the late increment arrives.
pub proof fn law_count_forgets_the_order(first: Seq<CountEvent>, second: Seq<CountEvent>)
    requires
        first.len() <= isize::MAX,
        second.len() <= isize::MAX,
        net_count(first) == net_count(second),
    ensures
        count_after(first) == count_after(second),
{
    law_count_holds_the_difference(first);
    law_count_holds_the_difference(second);
}

/// Two additions to a counter come to the sum of both, or to the largest number where that is less.
pub proof fn law_counters_add_up(value: u64, first: u64, second: u64)
    ensures
        value + first + second <= u64::MAX ==> saturated_u64(saturated_u64(value, first), second)
            == value + first + second,
        value + first + second > u64::MAX ==> saturated_u64(saturated_u64(value, first), second)
            == u64::MAX,
        saturated_u64(value, 0) == value,
{
}

/// Two additions to a small counter come to the sum of both, or to the largest number where that is
/// less.
pub proof fn law_small_counters_add_up(value: u32, first: u32, second: u32)
    ensures
        value + first + second <= u32::MAX ==> saturated_u32(saturated_u32(value, first), second)
            == value + first + second,
        value + first + second > u32::MAX ==> saturated_u32(saturated_u32(value, first), second)
            == u32::MAX,
        saturated_u32(value, 0) == value,
{
}

/// A received sample undoes a counted one and the other way round, and a count stands for itself up
/// to half of the range.
pub proof fn law_count_goes_up_and_down(current: usize)
    ensures
        decremented(incremented(current)) == current,
        incremented(decremented(current)) == current,
        current < usize::MAX ==> incremented(current) == current + 1,
        current <= isize::MAX ==> snapshot(current) == current,
        current > isize::MAX ==> snapshot(current) == 0,
{
}

} // verus!
