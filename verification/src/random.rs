//! The library's one source of chance.

use vstd::prelude::*;

verus! {

/// Draws one boolean from the thread-local generator of the `rand` crate, by
/// `rand::random::<bool>()`. Every call may come out either way, so the
/// contract claims nothing about the outcome; callers are verified for both.
#[verifier::external_body]
pub(crate) fn coin_flip() -> (heads: bool) {
    rand::random::<bool>()
}

} // verus!
