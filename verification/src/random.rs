//! The source of randomness: salts, nonces, and the characters of a password.

use vstd::prelude::*;

verus! {

/// `rand::fill` on a byte slice: every byte is overwritten with a random
/// one. Nothing is known of the bytes; the length is unchanged.
#[verifier::external_body]
pub(crate) fn fill(dest: &mut [u8])
    ensures
        final(dest)@.len() == old(dest)@.len(),
{
    rand::fill(dest)
}

/// `rand::random_range` on `0..bound`: a random index below `bound`. The
/// call panics on an empty range, which the precondition leaves out.
#[verifier::external_body]
pub(crate) fn index_below(bound: usize) -> (r: usize)
    requires
        bound > 0,
    ensures
        r < bound,
{
    rand::random_range(0..bound)
}

} // verus!
