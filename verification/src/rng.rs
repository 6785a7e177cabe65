//! The pseudo-random sources, behind trusted wrappers.
//!
//! The perturbation stream comes from `rand::rngs::StdRng` seeded with the
//! grid's seed, so the whole pattern is a function of that seed.  The stream
//! is consumed in a fixed cadence — two offset draws, then one rotation draw,
//! repeating — which the wrapper's precondition enforces; under that cadence
//! the value of the `k`-th draw depends on the seed and `k` alone, and
//! `draw_at` names it.
//!
//! Re-rolling the seed and re-picking the background color are independent
//! draws from the thread-local generator; nothing is assumed of them beyond
//! their range.

use vstd::prelude::*;

verus! {

#[verifier::external_type_specification]
#[verifier::external_body]
pub struct ExStdRng(rand::rngs::StdRng);

#[verifier::external_type_specification]
#[verifier::external_body]
pub struct ExThreadRng(rand::rngs::ThreadRng);

/// The `k`-th value of the perturbation stream for a given seed: what
/// `rand::Rng::gen_range` returns on a `StdRng` freshly built by
/// `seed_from_u64` when the ranges requested so far followed the fixed
/// cadence (offset, offset, rotation, repeating).
pub uninterp spec fn draw_at(seed: u64, k: int) -> int;

/// A seeded perturbation stream: a `StdRng` together with how it was seeded
/// and how many values have been drawn from it.
pub struct DrawStream {
    inner: rand::rngs::StdRng,
    seed: Ghost<u64>,
    drawn: Ghost<int>,
}

impl DrawStream {
    /// The seed this stream was built from.
    pub closed spec fn seed(self) -> u64 {
        self.seed@
    }

    /// How many values have been drawn so far.
    pub closed spec fn drawn(self) -> int {
        self.drawn@
    }

    /// Relies on `rand::SeedableRng::seed_from_u64` for `StdRng`: it builds
    /// the generator from the `u64` seed alone, deterministically, and does
    /// not panic.
    #[verifier::external_body]
    pub(crate) fn from_seed(seed: u64) -> (s: DrawStream)
        ensures
            s.seed() == seed,
            s.drawn() == 0,
    {
        DrawStream {
            inner: rand::SeedableRng::seed_from_u64(seed),
            seed: Ghost(seed),
            drawn: Ghost(0),
        }
    }

    /// Relies on `rand::Rng::gen_range` on `StdRng`: it returns a value
    /// uniform in `[lo, hi)` and panics only on an empty range.  The
    /// precondition pins the requested range by the stream position, so the
    /// draw cadence is fixed and the result is the function `draw_at` of the
    /// seed and the position.
    #[verifier::external_body]
    pub(crate) fn next_in(&mut self, lo: i64, hi: i64) -> (r: i64)
        requires
            if old(self).drawn() % 3 == 2 {
                lo == -crate::QUARTER_PI && hi == crate::QUARTER_PI
            } else {
                lo == -crate::HALF_UNIT && hi == crate::HALF_UNIT
            },
        ensures
            lo <= r < hi,
            r == draw_at(old(self).seed(), old(self).drawn()),
            final(self).seed() == old(self).seed(),
            final(self).drawn() == old(self).drawn() + 1,
    {
        rand::Rng::gen_range(&mut self.inner, lo..hi)
    }
}

/// Relies on `rand::thread_rng`: it hands out the thread-local generator and
/// does not panic.
#[verifier::external_body]
pub(crate) fn fresh_rng() -> rand::rngs::ThreadRng {
    rand::thread_rng()
}

/// Relies on `rand::Rng::gen_range` on `ThreadRng`: it returns a value
/// uniform in `[0, n)` and panics only on an empty range.  The result is an
/// independent draw; nothing more is assumed of it.
#[verifier::external_body]
pub(crate) fn pick_below(rng: &mut rand::rngs::ThreadRng, n: u32) -> (r: u32)
    requires
        n > 0,
    ensures
        r < n,
{
    rand::Rng::gen_range(rng, 0..n)
}

} // verus!
