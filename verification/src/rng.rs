//! The pseudorandom bit source. The game only ever needs one draw: a uniform
//! integer in a four-value range, used to pick a fresh ball direction. The
//! generator itself is opaque; nothing is assumed of its state, only that a
//! draw stays inside the requested range.
use vstd::prelude::*;

verus! {

#[verifier::external_type_specification]
#[verifier::external_body]
pub struct ExChaCha20Rng(rand_chacha::ChaCha20Rng);

/// Relies on `rand_core::SeedableRng::seed_from_u64` as implemented for
/// `rand_chacha::ChaCha20Rng`: builds a generator from a 64-bit seed.
/// Nothing is assumed about the state it produces.
#[verifier::external_body]
pub(crate) fn rng_from_seed(seed: u64) -> rand_chacha::ChaCha20Rng {
    <rand_chacha::ChaCha20Rng as rand::SeedableRng>::seed_from_u64(seed)
}

/// Relies on `rand::Rng::gen_range` over the inclusive range `0..=3`: the
/// draw is a uniform sample from that non-empty range, so it is at most 3.
/// Which of the four values comes back depends on the generator's state;
/// nothing more is assumed, and two draws may differ.
#[verifier::external_body]
pub(crate) fn sample_direction_code(rng: &mut rand_chacha::ChaCha20Rng) -> (code: u32)
    ensures
        code <= 3,
{
    rand::Rng::gen_range(rng, 0..=3u32)
}

} // verus!
