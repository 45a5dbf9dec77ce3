//! Ascending sort by merging, and what it means for one sequence to be the
//! sorted form of another.

use vstd::prelude::*;
use vstd::seq_lib::{lemma_multiset_commutative, lemma_sorted_unique, to_multiset_build, to_multiset_len};

verus! {

/// No element is followed, anywhere later, by a smaller one.
pub open spec fn sorted_ascending(s: Seq<i32>) -> bool {
    forall|i: int, j: int| 0 <= i < j < s.len() ==> s[i] <= s[j]
}

/// `output` holds exactly the elements of `input`, each as often as `input`
/// does, in ascending order.
pub open spec fn is_sort_of(input: Seq<i32>, output: Seq<i32>) -> bool {
    &&& sorted_ascending(output)
    &&& output.to_multiset() == input.to_multiset()
}

/// A sequence has exactly one sorted form.
pub proof fn lemma_sort_is_unique(input: Seq<i32>, a: Seq<i32>, b: Seq<i32>)
    requires
        is_sort_of(input, a),
        is_sort_of(input, b),
    ensures
        a == b,
{
    let leq = |x: i32, y: i32| x <= y;
    to_multiset_len(a);
    to_multiset_len(b);
    assert(vstd::relations::sorted_by(a, leq));
    assert(vstd::relations::sorted_by(b, leq));
    assert(vstd::relations::total_ordering(leq));
    lemma_sorted_unique(a, b, leq);
}

/// The sorted form is as long as the input.
pub proof fn lemma_sort_keeps_length(input: Seq<i32>, output: Seq<i32>)
    requires
        is_sort_of(input, output),
    ensures
        output.len() == input.len(),
{
    to_multiset_len(input);
    to_multiset_len(output);
}

proof fn lemma_take_next_multiset(s: Seq<i32>, i: int)
    requires
        0 <= i < s.len(),
    ensures
        s.take(i + 1).to_multiset() == s.take(i).to_multiset().insert(s[i]),
{
    assert(s.take(i + 1) == s.take(i).push(s[i]));
    to_multiset_build(s.take(i), s[i]);
}

/// Merges two ascending sequences into one.
fn merge(left: &Vec<i32>, right: &Vec<i32>) -> (out: Vec<i32>)
    requires
        sorted_ascending(left@),
        sorted_ascending(right@),
        left.len() + right.len() <= usize::MAX,
    ensures
        sorted_ascending(out@),
        out@.to_multiset() == left@.to_multiset().add(right@.to_multiset()),
{
    let n = left.len();
    let m = right.len();
    let mut out: Vec<i32> = Vec::with_capacity(n + m);
    let mut i: usize = 0;
    let mut j: usize = 0;
    proof {
        assert(left@.take(0) == Seq::<i32>::empty());
        assert(right@.take(0) == Seq::<i32>::empty());
        Seq::<i32>::empty().to_multiset_ensures();
        assert(out@ == Seq::<i32>::empty());
        assert(out@.to_multiset() =~= left@.take(0).to_multiset().add(
            right@.take(0).to_multiset(),
        ));
    }
    while i < n || j < m
        invariant
            n == left.len(),
            m == right.len(),
            i <= n,
            j <= m,
            out.len() == i + j,
            sorted_ascending(left@),
            sorted_ascending(right@),
            sorted_ascending(out@),
            forall|k: int, p: int| 0 <= k < out.len() && i <= p < n ==> out[k] <= left[p],
            forall|k: int, p: int| 0 <= k < out.len() && j <= p < m ==> out[k] <= right[p],
            out@.to_multiset() == left@.take(i as int).to_multiset().add(
                right@.take(j as int).to_multiset(),
            ),
        decreases (n - i) + (m - j),
    {
        let take_left = if i < n && j < m {
            left[i] <= right[j]
        } else {
            i < n
        };
        let ghost before = out@;
        if take_left {
            let x = left[i];
            out.push(x);
            proof {
                to_multiset_build(before, x);
                lemma_take_next_multiset(left@, i as int);
                assert(out@.to_multiset() =~= left@.take(i + 1).to_multiset().add(
                    right@.take(j as int).to_multiset(),
                ));
            }
            i = i + 1;
        } else {
            let x = right[j];
            out.push(x);
            proof {
                to_multiset_build(before, x);
                lemma_take_next_multiset(right@, j as int);
                assert(out@.to_multiset() =~= left@.take(i as int).to_multiset().add(
                    right@.take(j + 1).to_multiset(),
                ));
            }
            j = j + 1;
        }
    }
    proof {
        assert(left@.take(n as int) == left@);
        assert(right@.take(m as int) == right@);
    }
    out
}

/// Sorts the elements of `data` from index `lo` up to, not including, `hi`.
fn sort_range(data: &Vec<i32>, lo: usize, hi: usize) -> (out: Vec<i32>)
    requires
        lo <= hi <= data.len(),
    ensures
        is_sort_of(data@.subrange(lo as int, hi as int), out@),
        out.len() == hi - lo,
    decreases hi - lo,
{
    let ghost part = data@.subrange(lo as int, hi as int);
    if hi - lo <= 1 {
        let mut out: Vec<i32> = Vec::with_capacity(hi - lo);
        if lo < hi {
            out.push(data[lo]);
        }
        proof {
            assert(out@ == part);
        }
        out
    } else {
        let mid = lo + (hi - lo) / 2;
        let left = sort_range(data, lo, mid);
        let right = sort_range(data, mid, hi);
        let out = merge(&left, &right);
        proof {
            let first = data@.subrange(lo as int, mid as int);
            let second = data@.subrange(mid as int, hi as int);
            assert(part == first + second);
            lemma_multiset_commutative(first, second);
            to_multiset_len(out@);
            to_multiset_len(part);
        }
        out
    }
}

/// The elements in ascending order. Equal elements cannot be told apart, so
/// the result is the same whichever of them comes first.
pub fn sort(data: &Vec<i32>) -> (out: Vec<i32>)
    ensures
        is_sort_of(data@, out@),
{
    let out = sort_range(data, 0, data.len());
    proof {
        assert(data@.subrange(0, data.len() as int) == data@);
    }
    out
}

} // verus!
