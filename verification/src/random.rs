//! The stream of uniform draws that stochastic policies consume.

use rand::rngs::StdRng;
use rand::Rng;
use rand::SeedableRng;
use vstd::prelude::*;

use crate::probability::DRAW_RANGE;

verus! {

/// The generator `StdRng` of the `rand` crate. Its state is opaque here.
#[verifier::external_type_specification]
#[verifier::external_body]
pub struct ExStdRng(rand::rngs::StdRng);

/// Calls `StdRng::seed_from_u64` of the `rand` crate, which expands the seed
/// and builds a generator from it. Nothing is claimed of the generator.
#[verifier::external_body]
fn generator_from_seed(seed: u64) -> StdRng {
    StdRng::seed_from_u64(seed)
}

/// Calls `Rng::random::<u64>` of the `rand` crate, which advances the
/// generator and returns its next 64 bits. Nothing is claimed of the value.
#[verifier::external_body]
fn next_bits(generator: &mut StdRng) -> u64 {
    generator.random::<u64>()
}

/// Every element is a draw: below `DRAW_RANGE`.
pub open spec fn all_draws(draws: Seq<u64>) -> bool {
    forall|i: int| 0 <= i < draws.len() ==> #[trigger] draws[i] < DRAW_RANGE
}

/// A seeded generator of uniform draws, together with a ghost record of every
/// draw it has handed out.
///
/// A draw is an integer `k` with `0 <= k < DRAW_RANGE` and stands for the
/// real number `k / DRAW_RANGE` in `[0, 1)`. It is the upper 53 bits of the
/// generator's next 64-bit output.
pub struct RandomSource {
    generator: StdRng,
    drawn: Ghost<Seq<u64>>,
}

impl RandomSource {
    /// Every draw handed out so far, oldest first.
    pub closed spec fn drawn(&self) -> Seq<u64> {
        self.drawn@
    }

    /// The draws handed out between the state `before` and this one.
    pub open spec fn drawn_since(&self, before: &RandomSource) -> Seq<u64> {
        self.drawn().skip(before.drawn().len() as int)
    }

    /// This state was reached from `before` by drawing some more values.
    pub open spec fn extends(&self, before: &RandomSource) -> bool {
        before.drawn().is_prefix_of(self.drawn())
    }

    /// A source that has handed out nothing yet. Its draws are those of the
    /// generator that the `rand` crate builds from `seed`.
    pub fn seeded(seed: u64) -> (source: RandomSource)
        ensures
            source.drawn() == Seq::<u64>::empty(),
    {
        RandomSource { generator: generator_from_seed(seed), drawn: Ghost(Seq::empty()) }
    }

    /// Hands out the next draw.
    pub fn draw(&mut self) -> (value: u64)
        ensures
            value < DRAW_RANGE,
            final(self).drawn() == old(self).drawn().push(value),
    {
        let bits: u64 = next_bits(&mut self.generator);
        let value: u64 = bits >> 11;
        assert(value < 0x20_0000_0000_0000u64) by (bit_vector)
            requires
                value == bits >> 11,
        ;
        proof {
            self.drawn@ = self.drawn@.push(value);
        }
        value
    }
}

/// After one draw from `before`, the draws since `before` are that draw alone.
pub proof fn lemma_one_more_draw(before: RandomSource, after: RandomSource, value: u64)
    requires
        after.drawn() == before.drawn().push(value),
    ensures
        after.extends(&before),
        after.drawn_since(&before) == seq![value],
{
    assert(after.drawn_since(&before) =~= seq![value]);
}

/// Draws made in two stretches, one after the other, are the first stretch
/// followed by the second.
pub proof fn lemma_draws_compose(first: RandomSource, second: RandomSource, third: RandomSource)
    requires
        second.extends(&first),
        third.extends(&second),
    ensures
        third.extends(&first),
        third.drawn_since(&first) == second.drawn_since(&first) + third.drawn_since(&second),
{
    assert(first.drawn() =~= third.drawn().subrange(0, first.drawn().len() as int));
    assert(third.drawn_since(&first) =~= second.drawn_since(&first) + third.drawn_since(
        &second,
    ));
}

} // verus!
