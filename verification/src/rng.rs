//! The library's one source of randomness.

use rand::Rng;
use vstd::prelude::*;

verus! {

/// A random integer below `n`.
///
/// Relies on `rand::Rng::gen_range` on the thread-local generator: for a
/// non-empty range `0..n` it returns a value of that range. Nothing more is
/// assumed of the result; in particular two calls with the same argument may
/// return different values.
#[verifier::external_body]
pub(crate) fn random_below(n: u32) -> (r: u32)
    requires
        n > 0,
    ensures
        r < n,
{
    rand::thread_rng().gen_range(0..n)
}

} // verus!
