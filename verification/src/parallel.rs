//! The transformation that is computed on a pool of worker threads.

use rayon::iter::{IntoParallelRefIterator, ParallelIterator};
use vstd::prelude::*;
use crate::arith::{add_wrapping, lemma_wrap_add, mul_wrapping, wrap_i32};

verus! {

/// `x * x + x`, wrapped to 32 bits.
pub open spec fn square_plus_self(x: i32) -> i32 {
    wrap_i32(x * x + x)
}

/// Every element replaced by its square plus itself, in the input's order.
pub open spec fn parallel_processed(s: Seq<i32>) -> Seq<i32> {
    Seq::new(s.len(), |i: int| square_plus_self(s[i]))
}

/// The work done on one element: its square plus itself. Both the product
/// and the sum wrap on overflow, which comes to wrapping the exact value once.
pub fn square_plus(x: i32) -> (y: i32)
    ensures
        y == square_plus_self(x),
{
    proof {
        lemma_wrap_add(x * x, x as int);
    }
    add_wrapping(mul_wrapping(x, x), x)
}

/// Runs `square_plus` over the elements on rayon's worker pool:
/// `par_iter()` on the slice, `map`, and `collect` into a `Vec`.
///
/// Not proved, taken from rayon: `map` applies the function to each item, and
/// collecting an indexed parallel iterator into a `Vec` puts the result for
/// the item at index `i` at index `i`, whichever worker produced it and
/// whenever. The value at each index is then what `square_plus` is proved to
/// return.
#[verifier::external_body]
fn map_on_worker_pool(data: &Vec<i32>) -> (out: Vec<i32>)
    ensures
        out@.len() == data@.len(),
        forall|i: int| 0 <= i < data@.len() ==> out@[i] == square_plus_self(#[trigger] data@[i]),
{
    data.par_iter().map(|&x| square_plus(x)).collect()
}

/// Each element `x` replaced by `x * x + x`, computed in parallel across the
/// available cores. The result is in the input's order regardless of the
/// order in which the workers finish.
pub fn parallel_process(data: &Vec<i32>) -> (out: Vec<i32>)
    ensures
        out@ == parallel_processed(data@),
{
    map_on_worker_pool(data)
}

} // verus!
