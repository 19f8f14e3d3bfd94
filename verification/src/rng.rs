//! The shared deterministic random source for one render.
//!
//! The generator is seeded once per render — from an explicit seed or from
//! process entropy — and is passed explicitly into every function that needs
//! randomness, so rendering stays reproducible for a given seed.

use vstd::prelude::*;

verus! {

#[verifier::external_type_specification]
#[verifier::external_body]
pub struct ExStdRng(rand::rngs::StdRng);

/// Relies on rand's SeedableRng::from_seed for StdRng: builds the generator
/// from a 32-byte seed; the same seed always gives the same draw sequence.
#[verifier::external_body]
fn rng_from_seed(seed: &Vec<u8>) -> rand::rngs::StdRng
    requires
        seed@.len() == 32,
{
    let mut arr = [0u8; 32];
    arr.copy_from_slice(seed.as_slice());
    <rand::rngs::StdRng as rand::SeedableRng>::from_seed(arr)
}

/// Relies on rand::random: draws 32 bytes from process entropy. Nothing can
/// be promised of their values.
#[verifier::external_body]
fn entropy_seed() -> (r: Vec<u8>)
    ensures
        r@.len() == 32,
{
    rand::random::<[u8; 32]>().to_vec()
}

/// Relies on rand's Rng::random_range over `min..=max`: returns a uniformly
/// distributed value within the inclusive bounds. rand panics on an empty
/// range, which the requires excludes.
#[verifier::external_body]
pub(crate) fn random_uint_in_range(min: u32, max: u32, rand_generator: &mut rand::rngs::StdRng) -> (r: u32)
    requires
        min <= max,
    ensures
        min <= r <= max,
{
    rand::Rng::random_range(rand_generator, min..=max)
}


/// The shared generator for one render: seeded from the playlist's explicit
/// seed string (its UTF-8 bytes, zero-padded or truncated to 32 bytes), or
/// from process entropy when no seed is declared.
pub fn rng_for_render(seed: &Option<String>) -> rand::rngs::StdRng {
    match seed {
        Some(s) => {
            let bytes = crate::playlist::normalize_seed(s);
            rng_from_seed(&bytes)
        },
        None => {
            let bytes = entropy_seed();
            rng_from_seed(&bytes)
        },
    }
}

} // verus!
