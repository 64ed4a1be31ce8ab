//! Checks on what was read back: whether two payloads are byte-identical,
//! whether row identifiers count up without gaps, and whether two lists hold
//! the same identifiers in any order.

use vstd::prelude::*;
use vstd::relations::{sorted_by, total_ordering};
use vstd::seq_lib::lemma_sorted_unique;
use vstd::string::StringSliceAdditionalSpecFns;
use vstd::utf8::encode_utf8_decode_utf8;

verus! {

/// How two payloads compare byte by byte.
#[derive(Clone, Copy, Debug, PartialEq, Eq, Structural)]
pub enum Comparison {
    /// The payloads are byte-identical.
    Same,
    /// The payloads differ in length.
    LengthsDiffer,
    /// The payloads have one length and first differ at this index.
    DiffersAt(usize),
}

/// True when `i` is the first index at which `a` and `b` differ.
pub open spec fn first_difference(a: Seq<u8>, b: Seq<u8>, i: int) -> bool {
    &&& 0 <= i < a.len()
    &&& i < b.len()
    &&& a[i] != b[i]
    &&& forall|j: int| 0 <= j < i ==> a[j] == b[j]
}

/// The comparison of `a` with `b`: the one value that `compare_bytes` can
/// return for them.
pub open spec fn compares_as(a: Seq<u8>, b: Seq<u8>, c: Comparison) -> bool {
    match c {
        Comparison::Same => a == b,
        Comparison::LengthsDiffer => a.len() != b.len(),
        Comparison::DiffersAt(i) => a.len() == b.len() && first_difference(a, b, i as int),
    }
}

/// Compares two payloads byte by byte.
pub fn compare_bytes(a: &[u8], b: &[u8]) -> (c: Comparison)
    ensures
        compares_as(a@, b@, c),
{
    if a.len() != b.len() {
        return Comparison::LengthsDiffer;
    }
    let len = a.len();
    let mut i: usize = 0;
    while i < len
        invariant
            i <= len,
            len == a.len(),
            len == b.len(),
            forall|j: int| 0 <= j < i ==> a@[j] == b@[j],
        decreases len - i,
    {
        if a[i] != b[i] {
            return Comparison::DiffersAt(i);
        }
        i = i + 1;
    }
    assert(a@ =~= b@);
    Comparison::Same
}

/// Compares two texts by their bytes. Texts with the same bytes are the same
/// text.
pub fn compare_text(a: &str, b: &str) -> (c: Comparison)
    ensures
        compares_as(a.spec_bytes(), b.spec_bytes(), c),
        c == Comparison::Same <==> a@ == b@,
{
    proof {
        encode_utf8_decode_utf8(a@);
        encode_utf8_decode_utf8(b@);
    }
    compare_bytes(a.as_bytes(), b.as_bytes())
}

/// Two payloads compare in exactly one way.
pub proof fn lemma_comparison_is_unique(a: Seq<u8>, b: Seq<u8>, c: Comparison, d: Comparison)
    requires
        compares_as(a, b, c),
        compares_as(a, b, d),
    ensures
        c == d,
{
    if let Comparison::DiffersAt(i) = c {
        if let Comparison::DiffersAt(j) = d {
            if i < j {
                assert(a[i as int] == b[i as int]);
            }
            if j < i {
                assert(a[j as int] == b[j as int]);
            }
        }
    }
}

/// What is read back is what was written exactly when the comparison says
/// `Same`: any other outcome names a difference.
pub proof fn lemma_same_means_identical(a: Seq<u8>, b: Seq<u8>, c: Comparison)
    requires
        compares_as(a, b, c),
    ensures
        c == Comparison::Same <==> a == b,
{
}

/// True when `ids` counts up from `start` in steps of one.
pub open spec fn counts_up_from(ids: Seq<i32>, start: int) -> bool {
    forall|i: int| 0 <= i < ids.len() ==> #[trigger] ids[i] == start + i
}

/// Tells whether `ids` counts up from `start` in steps of one.
pub fn counts_from(ids: &Vec<i32>, start: i32) -> (ok: bool)
    ensures
        ok == counts_up_from(ids@, start as int),
{
    let mut i: usize = 0;
    let mut expected: i64 = start as i64;
    while i < ids.len()
        invariant
            i <= ids.len(),
            expected == start + i,
            expected <= i32::MAX + 1,
            forall|j: int| 0 <= j < i ==> #[trigger] ids@[j] == start + j,
        decreases ids.len() - i,
    {
        if ids[i] as i64 != expected {
            assert(ids@[i as int] != start + i);
            return false;
        }
        expected = expected + 1;
        i = i + 1;
    }
    true
}

/// Identifiers that count up in steps of one have no gaps and no duplicates:
/// they are exactly the `ids.len()` integers from `start` on, each once, in
/// rising order.
pub proof fn lemma_counting_has_no_gaps_or_duplicates(ids: Seq<i32>, start: int)
    requires
        counts_up_from(ids, start),
    ensures
        forall|i: int, j: int| 0 <= i < j < ids.len() ==> ids[i] < ids[j],
        ids.no_duplicates(),
        forall|k: i32| #[trigger] ids.contains(k) <==> start <= k < start + ids.len(),
{
    assert forall|k: i32| start <= k < start + ids.len() implies #[trigger] ids.contains(k) by {
        assert(ids[k - start] == k);
    }
}

/// True when `ids` is in ascending order.
pub open spec fn ascending(ids: Seq<i32>) -> bool {
    forall|i: int, j: int| 0 <= i < j < ids.len() ==> ids[i] <= ids[j]
}

/// Sorts the identifiers in place with the standard library's `sort` on
/// slices. Trusted: the contract states what the documentation of `sort`
/// promises, that the slice ends in ascending order and holds the elements it
/// held before.
#[verifier::external_body]
fn sort_ids(ids: &mut Vec<i32>)
    ensures
        ascending(final(ids)@),
        final(ids)@.to_multiset() == old(ids)@.to_multiset(),
{
    ids.sort();
}

/// The identifiers in ascending order.
pub fn sorted_ids(ids: Vec<i32>) -> (sorted: Vec<i32>)
    ensures
        ascending(sorted@),
        sorted@.to_multiset() == ids@.to_multiset(),
{
    let mut sorted = ids;
    sort_ids(&mut sorted);
    sorted
}

/// Tells whether two lists hold the same identifiers, each as often as the
/// other, in whatever order.
pub fn same_ids(actual: Vec<i32>, expected: Vec<i32>) -> (same: bool)
    ensures
        same == (actual@.to_multiset() == expected@.to_multiset()),
{
    let a = sorted_ids(actual);
    let e = sorted_ids(expected);
    proof {
        lemma_ascending_is_unique(a@, e@);
        a@.to_multiset_ensures();
        e@.to_multiset_ensures();
    }
    if a.len() != e.len() {
        return false;
    }
    let mut i: usize = 0;
    while i < a.len()
        invariant
            i <= a.len(),
            a.len() == e.len(),
            a@.to_multiset() == actual@.to_multiset(),
            e@.to_multiset() == expected@.to_multiset(),
            a@.to_multiset() == e@.to_multiset() ==> a@ == e@,
            forall|j: int| 0 <= j < i ==> a@[j] == e@[j],
        decreases a.len() - i,
    {
        if a[i] != e[i] {
            return false;
        }
        i = i + 1;
    }
    assert(a@ =~= e@);
    true
}

/// There is one ascending order of a collection of identifiers: two
/// ascending lists that hold the same identifiers, each as often as the
/// other, are equal.
pub proof fn lemma_ascending_is_unique(a: Seq<i32>, b: Seq<i32>)
    requires
        ascending(a),
        ascending(b),
    ensures
        a.to_multiset() == b.to_multiset() ==> a == b,
{
    if a.to_multiset() == b.to_multiset() {
        let leq = |x: i32, y: i32| x <= y;
        assert(sorted_by(a, leq));
        assert(sorted_by(b, leq));
        assert(total_ordering(leq)) by {
            assert(vstd::relations::reflexive(leq));
            assert(vstd::relations::antisymmetric(leq));
            assert(vstd::relations::transitive(leq));
            assert(vstd::relations::strongly_connected(leq));
        }
        lemma_sorted_unique(a, b, leq);
    }
}

} // verus!
