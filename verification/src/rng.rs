//! Randomness for the pipeline stages.
//!
//! Every stage owns a [`Entropy`] source.  A seeded source is a pure
//! function of its seed and of how many values it has already handed out,
//! which is what makes seeded runs replayable; an OS-seeded source promises
//! nothing about its values.  All draws are 64-bit; ranges are derived from
//! them in verified code.

use vstd::prelude::*;
use rand::rngs::StdRng;
use rand::SeedableRng;
use rand::RngCore;

verus! {

/// Declares rand's standard generator so values of it can live in fields.
#[verifier::external_type_specification]
#[verifier::external_body]
pub struct ExStdRng(StdRng);

/// The value a seeded source hands out for a given per-draw seed.
pub uninterp spec fn seeded_value(draw_seed: u64) -> u64;

/// Relies on rand::rngs::StdRng: `seed_from_u64` expands the seed by a fixed
/// PCG32 scheme and the first `next_u64` of the resulting ChaCha12 generator
/// is a function of the seed alone, on every machine.
#[verifier::external_body]
fn first_output_of(draw_seed: u64) -> (r: u64)
    ensures
        r == seeded_value(draw_seed),
{
    StdRng::seed_from_u64(draw_seed).next_u64()
}

/// Relies on rand::rngs::StdRng::from_os_rng: a generator seeded from OS
/// entropy.  Nothing is promised of its output; the call panics if the
/// OS cannot supply entropy.
#[verifier::external_body]
fn rng_from_os() -> StdRng {
    StdRng::from_os_rng()
}

/// Relies on rand_core::RngCore::next_u64: the generator's next 64-bit
/// output.  Nothing is promised of its value.
#[verifier::external_body]
fn rng_next(rng: &mut StdRng) -> u64 {
    rng.next_u64()
}

/// Multiplier folding the stream position into the per-draw seed
/// (an odd constant, so distinct positions give distinct offsets).
pub const DRAW_STEP: u64 = 0x9E37_79B9_7F4A_7C15;

/// Per-draw seed of the `position`-th value of the stream rooted at `seed`.
pub open spec fn draw_seed_at(seed: u64, position: u64) -> u64 {
    ((seed + (position * DRAW_STEP) % 0x1_0000_0000_0000_0000) % 0x1_0000_0000_0000_0000) as u64
}

/// The `position`-th value of the seeded stream rooted at `seed`.
pub open spec fn stream_value(seed: u64, position: u64) -> u64 {
    seeded_value(draw_seed_at(seed, position))
}

/// Position after one more draw (wraps at the end of the 64-bit range).
pub open spec fn next_position(p: u64) -> u64 {
    if p == u64::MAX { 0 } else { (p + 1) as u64 }
}

/// Source of 64-bit random values for one stage.
#[derive(Debug)]
pub enum Entropy {
    /// Replayable stream: the `position`-th value is `stream_value(seed, position)`.
    Seeded { seed: u64, position: u64 },
    /// OS-seeded generator; values are unconstrained.
    Device { rng: StdRng },
}

impl Entropy {
    /// Whether this source is replayable.
    pub open spec fn is_seeded(self) -> bool {
        self is Seeded
    }

    /// The seed of a replayable source.
    pub open spec fn seed(self) -> u64
        recommends self.is_seeded(),
    {
        self->Seeded_seed
    }

    /// How many values a replayable source has already handed out.
    pub open spec fn position(self) -> u64
        recommends self.is_seeded(),
    {
        self->Seeded_position
    }

    /// State after one draw: same seed, position advanced.
    pub open spec fn stepped(self) -> Entropy
        recommends self.is_seeded(),
    {
        Entropy::Seeded { seed: self.seed(), position: next_position(self.position()) }
    }

    /// Build a source: replayable when `seed` is given, OS-seeded otherwise.
    pub fn from_seed(seed: Option<u64>) -> (r: Entropy)
        ensures
            match seed {
                Some(s) => r == (Entropy::Seeded { seed: s, position: 0u64 }),
                None => !r.is_seeded(),
            },
    {
        match seed {
            Some(s) => Entropy::Seeded { seed: s, position: 0 },
            None => Entropy::Device { rng: rng_from_os() },
        }
    }

    /// Draw one 64-bit value.
    ///
    /// A seeded source hands out the value of its stream at the current
    /// position and advances; an OS-seeded source stays OS-seeded and its
    /// value is unconstrained.
    pub fn next(&mut self) -> (r: u64)
        ensures
            old(self).is_seeded() ==> {
                &&& r == stream_value(old(self).seed(), old(self).position())
                &&& *final(self) == old(self).stepped()
            },
            !old(self).is_seeded() ==> !final(self).is_seeded(),
    {
        match self {
            Entropy::Seeded { seed, position } => {
                let draw_seed = seed.wrapping_add(position.wrapping_mul(DRAW_STEP));
                let r = first_output_of(draw_seed);
                *position = if *position == u64::MAX { 0 } else { *position + 1 };
                r
            },
            Entropy::Device { rng } => rng_next(rng),
        }
    }

    /// Draw a value in `[1, max]`.
    pub fn draw_in_range(&mut self, max: usize) -> (r: usize)
        requires
            max >= 1,
        ensures
            1 <= r <= max,
            old(self).is_seeded() ==> {
                &&& r == in_range(stream_value(old(self).seed(), old(self).position()), max as u64)
                &&& *final(self) == old(self).stepped()
            },
            !old(self).is_seeded() ==> !final(self).is_seeded(),
    {
        let raw = self.next();
        (1 + (raw % (max as u64))) as usize
    }
}

/// Reduction of a raw 64-bit draw to the range `[1, max]`.
pub open spec fn in_range(raw: u64, max: u64) -> u64
    recommends max >= 1,
{
    (1 + raw % max) as u64
}

/// Two seeded sources with the same seed and position hand out the same
/// value and step to the same state: seeded draws are deterministic.
pub proof fn lemma_seeded_draws_deterministic(a: Entropy, b: Entropy)
    requires
        a.is_seeded(),
        b.is_seeded(),
        a.seed() == b.seed(),
        a.position() == b.position(),
    ensures
        stream_value(a.seed(), a.position()) == stream_value(b.seed(), b.position()),
        a.stepped() == b.stepped(),
{
}

} // verus!
