//! Two's-complement wrapping of mathematical integers into `i64`.
//!
//! Amounts and balances are `i64`. Their arithmetic never traps: a result
//! that leaves the range of `i64` wraps around, as `wrapping_add` does. The
//! functions here say what that means over the integers, and the lemmas show
//! that wrapping step by step gives the same value as wrapping once at the end.

use vstd::prelude::*;
use vstd::wrapping::i64_specs;

verus! {

/// How many values an `i64` can take.
pub open spec fn i64_span() -> int {
    0x1_0000_0000_0000_0000
}

/// Whether `x` is the value of some `i64`.
pub open spec fn fits_i64(x: int) -> bool {
    i64::MIN <= x <= i64::MAX
}

/// The one value in the range of `i64` that differs from `x` by a multiple of
/// `i64_span()`.
pub open spec fn wrap_i64(x: int) -> int {
    (x - i64::MIN) % i64_span() + i64::MIN
}

/// A wrapped value is the value of an `i64`, and wrapping leaves a value
/// alone exactly when it already is one.
pub proof fn lemma_wrap_fixes_what_fits(x: int)
    ensures
        fits_i64(wrap_i64(x)),
        fits_i64(x) <==> wrap_i64(x) == x,
{
}

/// Wrapping both terms and then their sum gives what wrapping the exact sum
/// gives: wrapping may be done at every step or once at the end.
pub proof fn lemma_wrap_add(x: int, y: int)
    ensures
        wrap_i64(wrap_i64(x) + wrap_i64(y)) == wrap_i64(x + y),
{
}

/// `wrapping_add` on `i64` computes the wrapped sum.
pub proof fn lemma_wrapping_add_wraps(a: i64, b: i64)
    ensures
        i64_specs::wrapping_add(a, b) == wrap_i64(a + b),
{
}

/// `wrapping_sub` on `i64` computes the wrapped difference.
pub proof fn lemma_wrapping_sub_wraps(a: i64, b: i64)
    ensures
        i64_specs::wrapping_sub(a, b) == wrap_i64(a - b),
{
}

} // verus!
