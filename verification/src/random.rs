//! Random choices, for the mock vendor responses.

use vstd::prelude::*;

verus! {

/// Calls `rand::seq::SliceRandom::choose` on `pool` with `rand::thread_rng()`.
///
/// Trusted: the pick is random, so only what holds of every outcome is
/// claimed. `choose` returns `None` for an empty slice and otherwise a
/// reference to one of its elements.
#[verifier::external_body]
pub fn pick_one<'a, T>(pool: &'a [T]) -> (picked: Option<&'a T>)
    ensures
        pool@.len() == 0 ==> picked is None,
        pool@.len() > 0 ==> picked is Some && pool@.contains(*picked.unwrap()),
{
    rand::seq::SliceRandom::choose(pool, &mut rand::thread_rng())
}

} // verus!
