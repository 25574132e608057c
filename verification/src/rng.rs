//! An injectable random source for food placement.
//!
//! The system-backed variant draws from the process-wide generator of
//! the `rand` crate; the seeded variant is a small verified linear
//! congruential generator, so that spawning behaviour can be driven
//! deterministically.  Either way, a draw promises nothing beyond its
//! range.

use vstd::prelude::*;

verus! {

#[verifier::external_type_specification]
#[verifier::external_body]
pub struct ExThreadRng(rand::rngs::ThreadRng);

/// A source of uniformly distributed cell coordinates.
pub enum RandomSource {
    System(rand::rngs::ThreadRng),
    Seeded(u32),
}

/// Relies on rand::thread_rng to hand out the thread-local generator.
/// Its first use on a thread can abort should the operating system's
/// entropy source be unavailable — an environment failure of the same
/// class as running out of memory, not a function of any input.
#[verifier::external_body]
fn new_thread_rng() -> rand::rngs::ThreadRng {
    rand::thread_rng()
}

/// Relies on rand::Rng::gen_range over the half-open range `0..n`: the
/// result is uniformly drawn from it, so it is below `n`; the call
/// panics only on an empty range, which `n >= 1` rules out.
#[verifier::external_body]
fn gen_below(rng: &mut rand::rngs::ThreadRng, n: u32) -> (r: u32)
    requires
        n >= 1,
    ensures
        r < n,
{
    rand::Rng::gen_range(rng, 0..n)
}

impl RandomSource {
    /// A source backed by the thread-local generator.
    pub fn system() -> RandomSource {
        RandomSource::System(new_thread_rng())
    }

    /// A deterministic source for reproducible runs.
    pub fn seeded(seed: u32) -> (r: RandomSource)
        ensures
            r == RandomSource::Seeded(seed),
    {
        RandomSource::Seeded(seed)
    }

    /// Draws a value below `n`.
    pub fn next_below(&mut self, n: u32) -> (r: u32)
        requires
            n >= 1,
        ensures
            r < n,
    {
        match self {
            RandomSource::System(rng) => gen_below(rng, n),
            RandomSource::Seeded(state) => {
                let next: u32 = (((*state as u64) * 1664525 + 1013904223) % 4294967296) as u32;
                *state = next;
                next % n
            },
        }
    }
}

} // verus!
