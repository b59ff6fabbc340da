//! A seeded pseudo-random generator, modeled deterministically.
//!
//! The generator is rand's `SmallRng`, seeded from a single `u64`. Its
//! behavior is deterministic: the value drawn by each call, and the state
//! the call leaves behind, are functions of the seed and of the calls made
//! so far. The contracts model this with an abstract state (an
//! uninterpreted `int`) threaded through the draws, so that everything
//! generated from a seed is pinned as a function of that seed.

use rand::seq::SliceRandom;
use rand::{Rng as _, SeedableRng};
use vstd::prelude::*;

verus! {

#[verifier::external_type_specification]
#[verifier::external_body]
pub struct ExSmallRng(rand::rngs::SmallRng);

/// Relies on rand's `SmallRng::seed_from_u64`: construction is a pure
/// function of the seed.
#[verifier::external_body]
fn small_rng_from_seed(seed: u64) -> rand::rngs::SmallRng {
    rand::rngs::SmallRng::seed_from_u64(seed)
}

/// The abstract generator state right after seeding with `seed`. Seeding is
/// a pure function of the seed, so the seed itself stands for that state;
/// every later state is an abstract value produced by the steps below.
pub open spec fn rng_seeded(seed: u64) -> int {
    seed as int
}

/// What one bounded draw does to a generator in state `state`: the value
/// drawn from `[lo, hi]` and the state left behind.
pub uninterp spec fn rng_range_step(state: int, lo: u64, hi: u64) -> (u64, int);

/// What one shuffle of `items` does to a generator in state `state`: the
/// permuted sequence and the state left behind.
pub uninterp spec fn rng_shuffle_step(state: int, items: Seq<u64>) -> (Seq<u64>, int);

/// The value drawn from `[lo, hi]` by a generator in state `state`.
pub open spec fn rand_in(state: int, lo: u64, hi: u64) -> u64 {
    rng_range_step(state, lo, hi).0
}

/// The generator state after a draw from `[lo, hi]`.
pub open spec fn rand_next(state: int, lo: u64, hi: u64) -> int {
    rng_range_step(state, lo, hi).1
}

/// The permutation of `items` produced by a generator in state `state`.
pub open spec fn shuffled_of(state: int, items: Seq<u64>) -> Seq<u64> {
    rng_shuffle_step(state, items).0
}

/// The generator state after shuffling `items`.
pub open spec fn shuffle_next(state: int, items: Seq<u64>) -> int {
    rng_shuffle_step(state, items).1
}

/// A seeded pseudo-random generator with its abstract state.
pub struct SeededRng {
    inner: rand::rngs::SmallRng,
    state: Ghost<int>,
}

impl SeededRng {
    /// The abstract state of this generator.
    pub closed spec fn spec_state(&self) -> int {
        self.state@
    }

    /// Seeds a fresh generator; its abstract state is `rng_seeded(seed)`.
    pub fn from_seed(seed: u64) -> (r: SeededRng)
        ensures
            r.spec_state() == rng_seeded(seed),
    {
        SeededRng { inner: small_rng_from_seed(seed), state: Ghost(rng_seeded(seed)) }
    }

    /// Relies on rand's `Rng::gen_range` over the inclusive range
    /// `lo..=hi`: it returns a value within the bounds, deterministically
    /// from the generator state, and panics only on an empty range.
    #[verifier::external_body]
    pub fn range(&mut self, lo: u64, hi: u64) -> (r: u64)
        requires
            lo <= hi,
        ensures
            (r, final(self).spec_state()) == rng_range_step(old(self).spec_state(), lo, hi),
            lo <= r <= hi,
    {
        self.inner.gen_range(lo..=hi)
    }

    /// Relies on rand's `SliceRandom::shuffle` (a Fisher–Yates shuffle):
    /// it permutes the slice in place — same elements, same length —
    /// deterministically from the generator state.
    #[verifier::external_body]
    pub fn shuffle(&mut self, items: &mut Vec<u64>)
        ensures
            (final(items)@, final(self).spec_state()) == rng_shuffle_step(
                old(self).spec_state(),
                old(items)@,
            ),
            final(items)@.to_multiset() == old(items)@.to_multiset(),
            final(items)@.len() == old(items)@.len(),
    {
        items.as_mut_slice().shuffle(&mut self.inner);
    }
}

} // verus!
