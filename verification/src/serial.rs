//! Serial numbers: one after the other, and from the start again after the last.

use vstd::prelude::*;

verus! {

/// The number that follows another.
pub open spec fn following(number: u64) -> u64 {
    if number == u64::MAX {
        0
    } else {
        (number + 1) as u64
    }
}

/// The number that is given out after `count` others.
pub open spec fn nth_following(first: u64, count: nat) -> u64
    decreases count,
{
    if count == 0 {
        first
    } else {
        following(nth_following(first, (count - 1) as nat))
    }
}

/// Numbers repeat only after all 2^64 of them were given out. This holds of the namespaces of
/// states, the numbers of requests and of their phases, the handles of clients and the numbers of
/// native buffers.
pub proof fn law_numbers_are_distinct(first: u64, earlier: nat, later: nat)
    requires
        earlier < later,
        later - earlier <= u64::MAX,
    ensures
        nth_following(first, earlier) != nth_following(first, later),
{
    lemma_nth_following(nth_following(first, earlier), (later - earlier) as nat);
    lemma_following_adds(first, earlier, (later - earlier) as nat);
}

proof fn lemma_nth_following(first: u64, count: nat)
    requires
        count <= u64::MAX,
    ensures
        nth_following(first, count) == (if first + count > u64::MAX {
            first + count - u64::MAX - 1
        } else {
            first + count
        }),
    decreases count,
{
    if count > 0 {
        lemma_nth_following(first, (count - 1) as nat);
    }
}

proof fn lemma_following_adds(first: u64, a: nat, b: nat)
    ensures
        nth_following(nth_following(first, a), b) == nth_following(first, a + b),
    decreases b,
{
    if b > 0 {
        lemma_following_adds(first, a, (b - 1) as nat);
    }
}

/// Numbers are given out in ascending order, one by one, and start again at 0 after the last.
pub proof fn law_numbers_follow_one_by_one(number: u64)
    ensures
        number < u64::MAX ==> following(number) == number + 1,
        following(u64::MAX) == 0,
{
}

} // verus!
