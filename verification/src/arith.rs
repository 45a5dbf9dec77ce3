//! Signed 32-bit arithmetic that wraps on overflow, and its exact model.

use vstd::prelude::*;

verus! {

/// The `i32` that two's-complement arithmetic keeps of an exact integer: the
/// one value in `i32::MIN ..= i32::MAX` that differs from `v` by a multiple
/// of 2^32.
pub open spec fn wrap_i32(v: int) -> i32 {
    let low = v % 0x1_0000_0000;
    if low > i32::MAX {
        (low - 0x1_0000_0000) as i32
    } else {
        low as i32
    }
}

/// Wrapping is determined by the value modulo 2^32: adding any multiple of
/// 2^32 changes nothing.
pub proof fn lemma_wrap_congruent(v: int, k: int)
    ensures
        wrap_i32(v + k * 0x1_0000_0000) == wrap_i32(v),
{
    assert((v + k * 0x1_0000_0000) % 0x1_0000_0000 == v % 0x1_0000_0000) by {
        vstd::arithmetic::div_mod::lemma_mod_multiples_vanish(k, v, 0x1_0000_0000);
    }
}

/// Wrapping an intermediate result before adding to it gives the same value
/// as wrapping once at the end.
pub proof fn lemma_wrap_add(v: int, w: int)
    ensures
        wrap_i32(wrap_i32(v) + w) == wrap_i32(v + w),
{
    let q = v / 0x1_0000_0000;
    let low = v % 0x1_0000_0000;
    assert(v == q * 0x1_0000_0000 + low) by {
        vstd::arithmetic::div_mod::lemma_fundamental_div_mod(v, 0x1_0000_0000);
    }
    if low > i32::MAX {
        assert(wrap_i32(v) + w + (q + 1) * 0x1_0000_0000 == v + w);
        lemma_wrap_congruent(wrap_i32(v) + w, q + 1);
    } else {
        assert(wrap_i32(v) + w + q * 0x1_0000_0000 == v + w);
        lemma_wrap_congruent(wrap_i32(v) + w, q);
    }
}

/// `x + y`, wrapping on overflow.
pub fn add_wrapping(x: i32, y: i32) -> (sum: i32)
    ensures
        sum == wrap_i32(x + y),
{
    x.wrapping_add(y)
}

/// `x * y`, wrapping on overflow.
pub fn mul_wrapping(x: i32, y: i32) -> (product: i32)
    ensures
        product == wrap_i32(x * y),
{
    x.wrapping_mul(y)
}

} // verus!
