//! Random choice of a question.

use rand::Rng;
use vstd::prelude::*;

verus! {

/// Draws an index below `bound` with `rand::Rng::gen_range(0, bound)` on
/// `rand::thread_rng()`.
///
/// Trusted: the generator returns a value in `[0, bound)`. Which value is
/// left open, so two draws with the same bound may differ. `gen_range`
/// panics on an empty range, hence the precondition.
#[verifier::external_body]
pub(crate) fn random_index(bound: usize) -> (index: usize)
    requires
        bound > 0,
    ensures
        index < bound,
{
    rand::thread_rng().gen_range(0, bound)
}

} // verus!
