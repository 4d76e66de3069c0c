//! The keyed hash that maps a key to a cell: ahash, seeded per filter.
use vstd::prelude::*;

verus! {

#[verifier::external_type_specification]
#[verifier::external_body]
pub struct ExRandomState(ahash::RandomState);

/// The 64-bit digest that a given ahash state gives to the UTF-8 bytes of a key.
pub uninterp spec fn keyed_hash(state: ahash::RandomState, key: Seq<char>) -> u64;

/// Relies on ahash::RandomState::new: a state with freshly drawn random keys.
/// Nothing is known of those keys.
pub assume_specification[ ahash::RandomState::new ]() -> ahash::RandomState;

/// Relies on ahash::RandomState::hash_one: states with the same keys hash the
/// same bytes to the same digest, so the digest of a key's UTF-8 bytes is a
/// function of the state and the key.
#[verifier::external_body]
pub(crate) fn digest(state: &ahash::RandomState, key: &str) -> (r: u64)
    ensures
        r == keyed_hash(*state, key@),
{
    state.hash_one(key.as_bytes())
}

} // verus!
