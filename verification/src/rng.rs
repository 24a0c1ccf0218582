use vstd::prelude::*;

use rand::{Rng, SeedableRng};
use rand_pcg::Pcg64;

verus! {

#[verifier::external_type_specification]
#[verifier::external_body]
pub struct ExLcg128Xsl64(rand_pcg::Lcg128Xsl64);

/// The value of the latest draw taken from a PCG-64 stream seeded with
/// `seed`, where `bounds` lists the bound of every draw made so far, oldest
/// first, the latest included. rand's generator and its uniform range
/// sampling are pure integer algorithms, so after a fixed sequence of draws
/// the generator's state — and with it the next value — is a function of the
/// seed and that sequence of bounds alone; two streams with the same seed and
/// the same call history yield the same values. (A draw may advance the
/// generator more than once, which is why the value depends on the whole
/// history and not merely on the draw's position.)
pub uninterp spec fn pcg_draw(seed: u64, bounds: Seq<u64>) -> u64;

/// A deterministic pseudo-random stream: a PCG-64 generator initialized from
/// a single integer seed. All randomized decisions of a render consume from
/// one stream in a fixed order, which makes renders reproducible.
pub struct SeededRandomStream {
    rng: Pcg64,
    seed: u64,
    history: Ghost<Seq<u64>>,
}

impl SeededRandomStream {
    /// The seed the stream was built from.
    pub closed spec fn seed_spec(&self) -> u64 {
        self.seed
    }

    /// The bounds of the draws made so far, oldest first.
    pub closed spec fn history(&self) -> Seq<u64> {
        self.history@
    }

    /// Builds the stream for a seed: a fresh generator that has drawn
    /// nothing yet.
    pub fn new(seed: u64) -> (r: Self)
        ensures
            r.seed_spec() == seed,
            r.history() == Seq::<u64>::empty(),
    {
        SeededRandomStream { rng: pcg_from_seed(seed), seed, history: Ghost(Seq::empty()) }
    }

    /// Relies on rand::Rng::gen_range over `0..bound`: for a non-empty range
    /// it returns a value of the range, computed from the generator's state
    /// by a pure integer algorithm (it panics only on an empty range, which
    /// the precondition rules out). The generator was paired with this seed
    /// and history by `new`, which is the only constructor.
    #[verifier::external_body]
    pub fn next_below(&mut self, bound: u64) -> (r: u64)
        requires
            bound >= 1,
        ensures
            r == pcg_draw(old(self).seed_spec(), old(self).history().push(bound)),
            r < bound,
            final(self).seed_spec() == old(self).seed_spec(),
            final(self).history() == old(self).history().push(bound),
    {
        self.rng.gen_range(0..bound)
    }
}

/// Relies on rand_core::SeedableRng::seed_from_u64 for rand_pcg::Pcg64: it
/// derives the generator's initial state from the integer seed by a fixed
/// integer algorithm, so equal seeds give equal generators.
#[verifier::external_body]
fn pcg_from_seed(seed: u64) -> Pcg64 {
    Pcg64::seed_from_u64(seed)
}

} // verus!
