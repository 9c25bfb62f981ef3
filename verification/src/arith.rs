//! Small arithmetic facts the fee and curve proofs lean on.
use vstd::prelude::*;

verus! {

/// A product of bounded non-negative factors is bounded by the product of the
/// bounds; in particular a product of two 64-bit values fits in 128 bits.
pub proof fn lemma_mul_le(a: int, b: int, ab: int, bb: int)
    by (nonlinear_arith)
    requires
        0 <= a <= ab,
        0 <= b <= bb,
    ensures
        a * b <= ab * bb,
{
}

/// Floor division by a positive divisor never grows the dividend.
pub proof fn lemma_div_le(a: int, d: int)
    by (nonlinear_arith)
    requires
        0 <= a,
        0 < d,
    ensures
        0 <= a / d <= a,
{
}

/// Dividing a bounded product back by its divisor stays under the bound:
/// `x * f / d <= x` whenever `f <= d`.
pub proof fn lemma_mul_div_le(x: int, f: int, d: int)
    by (nonlinear_arith)
    requires
        0 <= x,
        0 <= f <= d,
        0 < d,
    ensures
        0 <= x * f / d <= x,
{
}

} // verus!
