//! The source of randomness that drives sampling.
use rand::rngs::StdRng;
use rand::Rng;
use rand::SeedableRng;
use vstd::prelude::*;

verus! {

#[verifier::external_type_specification]
#[verifier::external_body]
pub struct ExStdRng(StdRng);

/// Relies on `rand::SeedableRng::seed_from_u64` for `StdRng`: a generator
/// whose sequence of outputs is fixed by the seed.
#[verifier::external_body]
fn seeded_rng(seed: u64) -> StdRng {
    StdRng::seed_from_u64(seed)
}

/// Relies on `rand::SeedableRng::from_entropy` for `StdRng`: a generator
/// seeded from the operating system.
#[verifier::external_body]
fn entropy_rng() -> StdRng {
    StdRng::from_entropy()
}

/// Relies on `rand::Rng::gen_range` over `0..n`: a uniform draw in that range,
/// which panics only when the range is empty.
#[verifier::external_body]
fn draw_below(rng: &mut StdRng, n: usize) -> (r: usize)
    requires
        n >= 1,
    ensures
        r < n,
{
    rng.gen_range(0..n)
}

/// A seedable pseudorandom source of uniform integers. It keeps, as ghost
/// state, the list of every value it has handed out, so that what a sampler
/// did can be stated as a function of the draws it took.
pub struct RandomSource {
    rng: StdRng,
    log: Ghost<Seq<int>>,
}

impl RandomSource {
    /// Every value drawn from this source so far, oldest first.
    pub closed spec fn drawn(&self) -> Seq<int> {
        self.log@
    }

    /// A source whose draws are fixed by `seed`: two sources made from one
    /// seed hand out the same values to the same sequence of requests.
    pub fn seed_from_u64(seed: u64) -> (r: Self)
        ensures
            r.drawn() == Seq::<int>::empty(),
    {
        RandomSource { rng: seeded_rng(seed), log: Ghost(Seq::empty()) }
    }

    /// A source seeded from the operating system's entropy.
    pub fn from_entropy() -> (r: Self)
        ensures
            r.drawn() == Seq::<int>::empty(),
    {
        RandomSource { rng: entropy_rng(), log: Ghost(Seq::empty()) }
    }

    /// Draws an integer uniformly from `0..n`.
    pub fn below(&mut self, n: usize) -> (r: usize)
        requires
            n >= 1,
        ensures
            r < n,
            final(self).drawn() == old(self).drawn().push(r as int),
    {
        let r = draw_below(&mut self.rng, n);
        self.log = Ghost(self.log@.push(r as int));
        r
    }
}

} // verus!
