//! The two points where the game draws randomness. Each wrapper states
//! only what holds of every outcome; nothing about the draw itself.

use vstd::prelude::*;

use rand::seq::SliceRandom;
use rand::Rng;

verus! {

/// Relies on rand::Rng::random_range over `0..n`: the sample lies in the
/// range. It panics on an empty range, which the precondition rules out.
#[verifier::external_body]
pub(crate) fn random_below(n: usize) -> (r: usize)
    requires
        n > 0,
    ensures
        r < n,
{
    rand::rng().random_range(0..n)
}

/// Relies on rand::seq::SliceRandom::shuffle: it permutes the slice in
/// place, so the elements are kept, in some order.
#[verifier::external_body]
pub(crate) fn shuffle_indices(v: &mut Vec<u8>)
    ensures
        final(v)@.to_multiset() == old(v)@.to_multiset(),
        final(v)@.len() == old(v)@.len(),
{
    v.shuffle(&mut rand::rng());
}

} // verus!
