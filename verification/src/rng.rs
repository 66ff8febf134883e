use vstd::prelude::*;
use rand::RngExt;
use rand::SeedableRng;

verus! {

#[verifier::external_type_specification]
#[verifier::external_body]
pub struct ExStdRng(rand::rngs::StdRng);

#[verifier::external_type_specification]
#[verifier::external_body]
pub struct ExThreadRng(rand::rngs::ThreadRng);

/// The value rand's `StdRng` hands back for a `random_range(lo..hi)` request,
/// as a function of the `u64` seed the generator was built from and of the
/// ranges served before this one. rand documents seeded generators as
/// reproducible: given a fixed seed, the same requests yield the same values
/// on all runs and architectures, so the draw is a function of these
/// arguments alone.
pub uninterp spec fn std_rng_draw(seed: u64, past: Seq<(i64, i64)>, lo: i64, hi: i64) -> i64;

/// A seeded generator together with the seed it was built from and the
/// request history served so far; the two pin down everything it will ever
/// return.
pub struct SeededRng {
    rng: rand::rngs::StdRng,
    seed: u64,
    hist: Vec<(i64, i64)>,
}

impl SeededRng {
    /// The seed the generator was built from.
    pub closed spec fn seed_spec(&self) -> u64 {
        self.seed
    }

    /// Every `(lo, hi)` range served so far, in order.
    pub closed spec fn hist_spec(&self) -> Seq<(i64, i64)> {
        self.hist@
    }

    /// Relies on rand's `SeedableRng::seed_from_u64` for `StdRng`: it builds a
    /// generator whose output stream is a deterministic, documented function
    /// of the seed.
    #[verifier::external_body]
    pub fn from_seed(seed: u64) -> (r: SeededRng)
        ensures
            r.seed_spec() == seed,
            r.hist_spec() == Seq::<(i64, i64)>::empty(),
    {
        SeededRng { rng: rand::rngs::StdRng::seed_from_u64(seed), seed, hist: Vec::new() }
    }

    /// Relies on rand's `RngExt::random_range`: it returns a value uniform in
    /// `[lo, hi)` and panics on an empty range, so the range must be
    /// non-empty; on a seeded `StdRng` the value is a function of the seed
    /// and of the requests served before (`std_rng_draw`).
    #[verifier::external_body]
    pub fn next_in(&mut self, lo: i64, hi: i64) -> (r: i64)
        requires
            lo < hi,
        ensures
            lo <= r < hi,
            r == std_rng_draw(old(self).seed_spec(), old(self).hist_spec(), lo, hi),
            final(self).seed_spec() == old(self).seed_spec(),
            final(self).hist_spec() == old(self).hist_spec().push((lo, hi)),
    {
        let r = self.rng.random_range(lo..hi);
        self.hist.push((lo, hi));
        r
    }
}

/// Relies on `rand::rng()`: a handle to the thread-local generator, seeded
/// from the operating system (rand documents a panic only if that seeding
/// itself fails). Nothing is known of the values it will produce; draws
/// through it are intentionally not reproducible.
#[verifier::external_body]
pub fn ambient_rng() -> (r: rand::rngs::ThreadRng) {
    rand::rng()
}

/// Relies on rand's `RngExt::random_range` on the thread-local generator:
/// it returns a value uniform in `[0, n)` and panics on an empty range, so
/// `n` must be positive. Which value comes back is not pinned down: two
/// calls on equal arguments may differ.
#[verifier::external_body]
pub fn ambient_below(rng: &mut rand::rngs::ThreadRng, n: usize) -> (r: usize)
    requires
        n >= 1,
    ensures
        r < n,
{
    rng.random_range(0..n)
}

/// Relies on `rand::random`: one value drawn from the thread-local
/// generator (rand documents a panic only if its first seeding from the
/// operating system fails), used only to pin a fresh seed when the caller
/// supplied none. Nothing is known of the value.
#[verifier::external_body]
pub fn entropy_seed() -> (r: u64) {
    rand::random::<u64>()
}

} // verus!
