use vstd::prelude::*;

verus! {

/// Relies on fastrand's `i64`: a uniform draw from the given range. The
/// range `0..n` is non-empty whenever `n > 0`, so the call cannot panic;
/// beyond the range bound, nothing is claimed of a random value.
#[verifier::external_body]
pub(crate) fn rand_below_i64(n: i64) -> (r: i64)
    requires
        0 < n,
    ensures
        0 <= r < n,
{
    fastrand::i64(0..n)
}

/// Relies on fastrand's `usize`: a uniform draw from the given range, which
/// is non-empty whenever `n > 0`.
#[verifier::external_body]
pub(crate) fn rand_below_usize(n: usize) -> (r: usize)
    requires
        0 < n,
    ensures
        r < n,
{
    fastrand::usize(0..n)
}

} // verus!
