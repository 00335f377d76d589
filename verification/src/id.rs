//! The identifier generator: collision-resistant names for newly created
//! agents.
//!
//! A pseudorandom generator is seeded once per process lifetime from a
//! host-supplied entropy value; each identifier is 128 bits of its output
//! in the version-4, RFC 4122 layout.  A fresh seed on every process
//! restart is tolerated: only identifiers generated within one process's
//! set of live agents need be unique.

use rand::{RngCore, SeedableRng};
use vstd::prelude::*;

verus! {

#[verifier::external_type_specification]
#[verifier::external_body]
pub struct ExStdRng(rand::rngs::StdRng);

/// Relies on rand's `StdRng::seed_from_u64`: a pseudorandom generator
/// deterministically derived from the seed.
#[verifier::external_body]
fn rng_from_seed(seed: u64) -> (r: rand::rngs::StdRng) {
    rand::rngs::StdRng::seed_from_u64(seed)
}

/// Relies on rand's `RngCore::fill_bytes` for `StdRng`: fills the buffer
/// with the generator's next output bytes; infallible for this generator.
#[verifier::external_body]
fn next_random_bytes(rng: &mut rand::rngs::StdRng) -> (r: [u8; 16]) {
    let mut bytes: [u8; 16] = [0; 16];
    rng.fill_bytes(&mut bytes);
    bytes
}

/// Relies on uuid's `Builder::from_random_bytes` and `Uuid::as_u128`: the
/// bytes are read back big-endian with the version nibble (the high half
/// of byte 6) forced to 4 and the two variant bits (the top of byte 8)
/// forced to the RFC 4122 pattern.
#[verifier::external_body]
fn v4_bits_of(bytes: &[u8; 16]) -> (r: u128)
    ensures
        (r >> 76) & 0xf == 4,
        (r >> 62) & 0x3 == 2,
{
    uuid::Builder::from_random_bytes(*bytes).into_uuid().as_u128()
}

/// Process-local source of fresh agent identifiers.
pub struct IdGen {
    rng: rand::rngs::StdRng,
}

impl IdGen {
    /// A generator seeded from a host-supplied entropy value; seeded once
    /// at process start and never reseeded.
    pub fn from_seed(seed: u64) -> IdGen {
        IdGen { rng: rng_from_seed(seed) }
    }

    /// The next fresh identifier: 128 pseudorandom bits in the version-4,
    /// RFC 4122 layout, with negligible collision probability across this
    /// process's lifetime.
    pub fn get_id(&mut self) -> (r: u128)
        ensures
            (r >> 76) & 0xf == 4,
            (r >> 62) & 0x3 == 2,
    {
        let bytes = next_random_bytes(&mut self.rng);
        v4_bits_of(&bytes)
    }
}

} // verus!
