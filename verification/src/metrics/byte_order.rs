//! Lexicographic order of byte strings, and the ASCII upper case under which they are looked up.

use vstd::prelude::*;

verus! {

/// Whether `a` comes before `b` in lexicographic order.
pub open spec fn comes_before(a: Seq<u8>, b: Seq<u8>) -> bool
    decreases a.len(),
{
    if b.len() == 0 {
        false
    } else if a.len() == 0 {
        true
    } else if a[0] != b[0] {
        a[0] < b[0]
    } else {
        comes_before(a.drop_first(), b.drop_first())
    }
}

/// No byte string comes before itself.
pub proof fn lemma_irreflexive(a: Seq<u8>)
    ensures
        !comes_before(a, a),
    decreases a.len(),
{
    if a.len() > 0 {
        lemma_irreflexive(a.drop_first());
    }
}

/// The order is transitive.
pub proof fn lemma_transitive(a: Seq<u8>, b: Seq<u8>, c: Seq<u8>)
    requires
        comes_before(a, b),
        comes_before(b, c),
    ensures
        comes_before(a, c),
    decreases a.len(),
{
    if a.len() > 0 && a[0] == b[0] && b[0] == c[0] {
        lemma_transitive(a.drop_first(), b.drop_first(), c.drop_first());
    }
}

/// Of two byte strings that differ, one comes before the other, and not both.
pub proof fn lemma_total(a: Seq<u8>, b: Seq<u8>)
    ensures
        a == b || comes_before(a, b) || comes_before(b, a),
        !(comes_before(a, b) && comes_before(b, a)),
    decreases a.len(),
{
    if a.len() > 0 && b.len() > 0 {
        if a[0] == b[0] {
            lemma_total(a.drop_first(), b.drop_first());
            if a.drop_first() == b.drop_first() {
                assert(a =~= seq![a[0]] + a.drop_first());
                assert(b =~= seq![b[0]] + b.drop_first());
            }
        }
    } else if a.len() == 0 && b.len() == 0 {
        assert(a =~= b);
    }
}

/// Whether the byte strings stand in ascending order, none of them twice.
pub open spec fn strictly_ascending(list: Seq<Seq<u8>>) -> bool {
    forall|i: int, j: int| 0 <= i < j < list.len() ==> comes_before(#[trigger] list[i], #[trigger] list[j])
}

/// A set of byte strings can be listed in strictly ascending order in one way only.
pub proof fn lemma_ascending_list_is_unique(a: Seq<Seq<u8>>, b: Seq<Seq<u8>>)
    requires
        strictly_ascending(a),
        strictly_ascending(b),
        forall|x: Seq<u8>| a.contains(x) <==> b.contains(x),
    ensures
        a == b,
    decreases a.len(),
{
    if a.len() == 0 {
        if b.len() > 0 {
            assert(b.contains(b[0]));
            assert(a.contains(b[0]));
        }
        assert(a =~= b);
    } else {
        assert(a.contains(a[0]));
        let j = choose|j: int| 0 <= j < b.len() && b[j] == a[0];
        assert(b.contains(b[0]));
        let i = choose|i: int| 0 <= i < a.len() && a[i] == b[0];
        if j > 0 {
            assert(comes_before(b[0], b[j]));
            lemma_total(a[0], a[i]);
            lemma_irreflexive(a[0]);
            assert(i > 0 ==> comes_before(a[0], a[i]));
        }
        assert(a[0] == b[0]);
        let rest_a = a.drop_first();
        let rest_b = b.drop_first();
        assert forall|x: Seq<u8>| rest_a.contains(x) <==> rest_b.contains(x) by {
            if rest_a.contains(x) {
                let k = choose|k: int| 0 <= k < rest_a.len() && rest_a[k] == x;
                assert(a[k + 1] == x);
                assert(comes_before(a[0], a[k + 1]));
                assert(b.contains(x));
                let m = choose|m: int| 0 <= m < b.len() && b[m] == x;
                lemma_irreflexive(x);
                assert(rest_b[m - 1] == x);
            }
            if rest_b.contains(x) {
                let k = choose|k: int| 0 <= k < rest_b.len() && rest_b[k] == x;
                assert(b[k + 1] == x);
                assert(comes_before(b[0], b[k + 1]));
                assert(a.contains(x));
                let m = choose|m: int| 0 <= m < a.len() && a[m] == x;
                lemma_irreflexive(x);
                assert(rest_a[m - 1] == x);
            }
        }
        lemma_ascending_list_is_unique(rest_a, rest_b);
        assert(a =~= seq![a[0]] + rest_a);
        assert(b =~= seq![b[0]] + rest_b);
    }
}

/// The ASCII upper case of a byte; a byte that is no lower-case letter stands for itself.
pub open spec fn upper_byte(byte: u8) -> u8 {
    if 97 <= byte <= 122 {
        (byte - 32) as u8
    } else {
        byte
    }
}

/// The ASCII upper case of a byte string.
pub open spec fn upper_bytes(bytes: Seq<u8>) -> Seq<u8> {
    Seq::new(bytes.len(), |i: int| upper_byte(bytes[i]))
}

/// The ASCII upper case of a byte.
pub fn to_upper(byte: u8) -> (upper: u8)
    ensures
        upper == upper_byte(byte),
{
    if 97 <= byte && byte <= 122 {
        byte - 32
    } else {
        byte
    }
}

/// Where a byte string stands relative to another.
#[derive(Clone, Copy, Debug, PartialEq, Eq, Structural)]
pub enum Relation {
    Before,
    Same,
    After,
}

/// Where `a` stands relative to `b` in lexicographic order.
pub open spec fn relation(a: Seq<u8>, b: Seq<u8>) -> Relation {
    if a == b {
        Relation::Same
    } else if comes_before(a, b) {
        Relation::Before
    } else {
        Relation::After
    }
}

proof fn lemma_relation_of_tails(a: Seq<u8>, b: Seq<u8>, i: int)
    requires
        0 <= i <= a.len(),
        i <= b.len(),
        a.take(i) == b.take(i),
    ensures
        comes_before(a, b) == comes_before(a.skip(i), b.skip(i)),
        a == b <==> a.skip(i) == b.skip(i),
    decreases i,
{
    if i == 0 {
        assert(a.skip(0) =~= a);
        assert(b.skip(0) =~= b);
    } else {
        assert(a[0] == a.take(i)[0]);
        assert(b[0] == b.take(i)[0]);
        assert(a.drop_first().take(i - 1) =~= a.take(i).drop_first());
        assert(b.drop_first().take(i - 1) =~= b.take(i).drop_first());
        lemma_relation_of_tails(a.drop_first(), b.drop_first(), i - 1);
        assert(a.drop_first().skip(i - 1) =~= a.skip(i));
        assert(b.drop_first().skip(i - 1) =~= b.skip(i));
        assert(a =~= a.take(i) + a.skip(i));
        assert(b =~= b.take(i) + b.skip(i));
    }
}

/// Compares a byte string with the upper case of another, without building that upper case.
pub fn compare_with_upper(candidate: &[u8], operation: &[u8]) -> (result: Relation)
    ensures
        result == relation(candidate@, upper_bytes(operation@)),
{
    let ghost upper = upper_bytes(operation@);
    let mut i: usize = 0;
    while i < candidate.len() && i < operation.len()
        invariant
            i <= candidate@.len(),
            i <= operation@.len(),
            upper == upper_bytes(operation@),
            candidate@.take(i as int) == upper.take(i as int),
        decreases candidate@.len() - i,
    {
        let a = candidate[i];
        let b = to_upper(operation[i]);
        if a != b {
            proof {
                lemma_relation_of_tails(candidate@, upper, i as int);
                assert(candidate@.skip(i as int)[0] == a);
                assert(upper.skip(i as int)[0] == b);
            }
            if a < b {
                return Relation::Before;
            } else {
                return Relation::After;
            }
        }
        proof {
            assert(candidate@.take(i + 1) =~= candidate@.take(i as int).push(a));
            assert(upper.take(i + 1) =~= upper.take(i as int).push(b));
        }
        i = i + 1;
    }
    proof {
        lemma_relation_of_tails(candidate@, upper, i as int);
        assert(candidate@.skip(i as int).len() == candidate@.len() - i);
        assert(upper.skip(i as int).len() == upper.len() - i);
        if candidate@.len() == operation@.len() {
            assert(candidate@.skip(i as int) =~= upper.skip(i as int));
        }
    }
    if candidate.len() == operation.len() {
        Relation::Same
    } else if candidate.len() < operation.len() {
        Relation::Before
    } else {
        Relation::After
    }
}

/// Compares two byte strings.
pub fn compare_bytes(a: &[u8], b: &[u8]) -> (result: Relation)
    ensures
        result == relation(a@, b@),
{
    let mut i: usize = 0;
    while i < a.len() && i < b.len()
        invariant
            i <= a@.len(),
            i <= b@.len(),
            a@.take(i as int) == b@.take(i as int),
        decreases a@.len() - i,
    {
        if a[i] != b[i] {
            proof {
                lemma_relation_of_tails(a@, b@, i as int);
                assert(a@.skip(i as int)[0] == a@[i as int]);
                assert(b@.skip(i as int)[0] == b@[i as int]);
            }
            if a[i] < b[i] {
                return Relation::Before;
            } else {
                return Relation::After;
            }
        }
        proof {
            assert(a@.take(i + 1) =~= a@.take(i as int).push(a@[i as int]));
            assert(b@.take(i + 1) =~= b@.take(i as int).push(b@[i as int]));
        }
        i = i + 1;
    }
    proof {
        lemma_relation_of_tails(a@, b@, i as int);
        assert(a@.skip(i as int).len() == a@.len() - i);
        assert(b@.skip(i as int).len() == b@.len() - i);
        if a@.len() == b@.len() {
            assert(a@.skip(i as int) =~= b@.skip(i as int));
        }
    }
    if a.len() == b.len() {
        Relation::Same
    } else if a.len() < b.len() {
        Relation::Before
    } else {
        Relation::After
    }
}

/// The order is lexicographic: the first byte in which two byte strings differ decides, and one that
/// goes on after the end of the other comes later.
pub proof fn law_first_difference_decides(a: Seq<u8>, b: Seq<u8>, at: int)
    requires
        0 <= at <= a.len(),
        at <= b.len(),
        a.take(at) == b.take(at),
    ensures
        at < a.len() && at < b.len() && a[at] < b[at] ==> comes_before(a, b) && !comes_before(b, a),
        at == a.len() && a.len() < b.len() ==> comes_before(a, b) && !comes_before(b, a),
{
    lemma_relation_of_tails(a, b, at);
    lemma_relation_of_tails(b, a, at);
    assert(at < a.len() ==> a.skip(at)[0] == a[at]);
    assert(at < b.len() ==> b.skip(at)[0] == b[at]);
}

/// Two byte strings relate as the order says.
pub proof fn law_relation_is_the_order(a: Seq<u8>, b: Seq<u8>)
    ensures
        relation(a, b) == Relation::Same <==> a == b,
        relation(a, b) == Relation::Before <==> comes_before(a, b),
        relation(a, b) == Relation::After <==> comes_before(b, a),
{
    lemma_total(a, b);
    lemma_irreflexive(a);
}

/// A list is ascending exactly where each of its byte strings comes before all that follow.
pub proof fn law_ascending_lists(list: Seq<Seq<u8>>, name: Seq<u8>)
    ensures
        strictly_ascending(Seq::<Seq<u8>>::empty()),
        strictly_ascending(list.push(name)) <==> strictly_ascending(list) && forall|i: int|
            0 <= i < list.len() ==> comes_before(#[trigger] list[i], name),
{
    let longer = list.push(name);
    if strictly_ascending(longer) {
        assert forall|i: int, j: int| 0 <= i < j < list.len() implies comes_before(
            #[trigger] list[i],
            #[trigger] list[j],
        ) by {
            assert(comes_before(longer[i], longer[j]));
        }
        assert forall|i: int| 0 <= i < list.len() implies comes_before(#[trigger] list[i], name) by {
            assert(comes_before(longer[i], longer[list.len() as int]));
        }
    }
}

/// Lower-case ASCII letters become the capitals that stand 32 below them, and no other byte changes.
pub proof fn law_upper_case_of_letters(bytes: Seq<u8>, i: int)
    requires
        0 <= i < bytes.len(),
    ensures
        upper_bytes(bytes).len() == bytes.len(),
        97 <= bytes[i] <= 122 ==> upper_bytes(bytes)[i] + 32 == bytes[i],
        bytes[i] < 97 || bytes[i] > 122 ==> upper_bytes(bytes)[i] == bytes[i],
        upper_bytes(bytes)[i] == upper_byte(bytes[i]),
{
}

} // verus!
