use vstd::prelude::*;

verus! {

/// Largest bound accepted by `random_below`.
pub const MAX_RANDOM_BOUND: u32 = 2_097_152;

/// Relies on `macroquad::rand::gen_range` (quad-rand) on `u32`: it scales a
/// 32-bit draw `k` to `n * k / 2^32` in `f64` and truncates. For `n` up to
/// 2^21 that product is exact, so the result lies in `0..n`.
#[verifier::external_body]
pub(crate) fn random_below(n: u32) -> (r: u32)
    requires
        0 < n <= MAX_RANDOM_BOUND,
    ensures
        r < n,
{
    macroquad::rand::gen_range(0u32, n)
}

} // verus!
