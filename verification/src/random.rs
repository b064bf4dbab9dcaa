//! The one source of randomness the supervisor uses: the seed handed to the
//! external proposal-construction collaborator.

use vstd::prelude::*;

verus! {

/// Relies on rand::random: a random value drawn from the thread-local
/// generator. Nothing can be promised of it.
#[verifier::external_body]
pub fn random_u64() -> u64 {
    rand::random::<u64>()
}

} // verus!
