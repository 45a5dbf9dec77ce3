//! The element-wise and order-changing transformations, each with the
//! sequence it is specified to return.

use vstd::prelude::*;
use crate::arith::{add_wrapping, lemma_wrap_add, mul_wrapping, wrap_i32};

verus! {

/// Every element times two, wrapped to 32 bits.
pub open spec fn doubled(s: Seq<i32>) -> Seq<i32> {
    Seq::new(s.len(), |i: int| wrap_i32(2 * s[i]))
}

/// Every element times itself, wrapped to 32 bits.
pub open spec fn squared(s: Seq<i32>) -> Seq<i32> {
    Seq::new(s.len(), |i: int| wrap_i32(s[i] * s[i]))
}

/// The exact sum of the elements, as an unbounded integer.
pub open spec fn exact_sum(s: Seq<i32>) -> int
    decreases s.len(),
{
    if s.len() == 0 {
        0
    } else {
        exact_sum(s.drop_last()) + s.last()
    }
}

/// The one-element sequence that holds the sum, wrapped to 32 bits.
pub open spec fn summed(s: Seq<i32>) -> Seq<i32> {
    seq![wrap_i32(exact_sum(s))]
}

/// The elements in opposite order.
pub fn reverse(data: &Vec<i32>) -> (out: Vec<i32>)
    ensures
        out@ == data@.reverse(),
{
    let n = data.len();
    let mut out: Vec<i32> = Vec::with_capacity(n);
    let mut i: usize = 0;
    while i < n
        invariant
            n == data.len(),
            i <= n,
            out.len() == i,
            forall|k: int| 0 <= k < i ==> out[k] == data[n - 1 - k],
        decreases n - i,
    {
        out.push(data[n - 1 - i]);
        i = i + 1;
    }
    out
}

/// Each element doubled. A product that does not fit in an `i32` wraps.
pub fn double(data: &Vec<i32>) -> (out: Vec<i32>)
    ensures
        out@ == doubled(data@),
{
    let n = data.len();
    let mut out: Vec<i32> = Vec::with_capacity(n);
    let mut i: usize = 0;
    while i < n
        invariant
            n == data.len(),
            i <= n,
            out.len() == i,
            forall|k: int| 0 <= k < i ==> out[k] == wrap_i32(2 * data[k]),
        decreases n - i,
    {
        out.push(mul_wrapping(2, data[i]));
        i = i + 1;
    }
    out
}

/// Each element squared. A product that does not fit in an `i32` wraps.
pub fn square(data: &Vec<i32>) -> (out: Vec<i32>)
    ensures
        out@ == squared(data@),
{
    let n = data.len();
    let mut out: Vec<i32> = Vec::with_capacity(n);
    let mut i: usize = 0;
    while i < n
        invariant
            n == data.len(),
            i <= n,
            out.len() == i,
            forall|k: int| 0 <= k < i ==> out[k] == wrap_i32(data[k] * data[k]),
        decreases n - i,
    {
        out.push(mul_wrapping(data[i], data[i]));
        i = i + 1;
    }
    out
}

/// The sum of the elements, as a sequence of one element. The running total
/// is kept in an `i32` and wraps whenever it overflows; the result is the
/// exact sum wrapped once. An empty input sums to zero.
pub fn sum(data: &Vec<i32>) -> (out: Vec<i32>)
    ensures
        out@ == summed(data@),
{
    let n = data.len();
    let mut total: i32 = 0;
    let mut i: usize = 0;
    while i < n
        invariant
            n == data.len(),
            i <= n,
            total == wrap_i32(exact_sum(data@.take(i as int))),
        decreases n - i,
    {
        proof {
            let next = data@.take(i + 1);
            assert(next.drop_last() == data@.take(i as int));
            assert(next.last() == data[i as int]);
            lemma_wrap_add(exact_sum(data@.take(i as int)), data[i as int] as int);
        }
        total = add_wrapping(total, data[i]);
        i = i + 1;
    }
    proof {
        assert(data@.take(n as int) == data@);
    }
    let mut out: Vec<i32> = Vec::with_capacity(1);
    out.push(total);
    out
}

} // verus!
