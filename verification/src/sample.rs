use vstd::prelude::*;

verus! {

/// Relies on `rand::random_range` over a half-open `i32` range, drawn from the
/// thread-local generator: the sampled value always lies inside the range, and
/// the call panics only on an empty range, which `lo < hi` rules out. Nothing
/// more is assumed of the draw; every caller must cope with any value in range.
#[verifier::external_body]
pub(crate) fn draw_in_range(lo: i32, hi: i32) -> (r: i32)
    requires
        lo < hi,
    ensures
        lo <= r < hi,
{
    rand::random_range(lo..hi)
}

} // verus!
