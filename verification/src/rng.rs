use vstd::prelude::*;

verus! {

/// The deterministic pseudo-random generator that sampling consumes.
/// `rand`'s `StdRng` is opaque here: the library only ever draws plain
/// 64-bit words from it.
#[verifier::external_type_specification]
#[verifier::external_body]
pub struct ExStdRng(rand::rngs::StdRng);

/// Relies on rand's `RngCore::next_u64` for `StdRng`: advances the
/// generator and hands back its next 64-bit word. The word can be
/// anything, so nothing is stated of the result.
#[verifier::external_body]
pub(crate) fn next_u64(rng: &mut rand::rngs::StdRng) -> u64 {
    rand::RngCore::next_u64(rng)
}

} // verus!
