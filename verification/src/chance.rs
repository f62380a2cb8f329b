//! The one source of chance: a uniformly drawn index.

use rand::Rng;
use vstd::prelude::*;

verus! {

/// Draws an index below `n` from the thread's random generator
/// (`rand::thread_rng().gen_range(0..n)`).
///
/// The generator promises a value inside the range and nothing else, so that
/// is all the contract says: two calls may differ. An empty range makes the
/// generator panic, hence the precondition.
#[verifier::external_body]
pub(crate) fn random_below(n: usize) -> (i: usize)
    requires
        n > 0,
    ensures
        i < n,
{
    rand::thread_rng().gen_range(0..n)
}

} // verus!
