use vstd::prelude::*;

verus! {

/// Relies on rand::random_range over the half-open range `0..bound`: it
/// returns a value drawn from that range and panics only when the range is
/// empty.
#[verifier::external_body]
pub(crate) fn random_below(bound: u32) -> (r: u32)
    requires
        0 < bound,
    ensures
        r < bound,
{
    rand::random_range(0..bound)
}

} // verus!
