use vstd::prelude::*;
use rand::distributions::WeightedError;
use rand::seq::SliceRandom;
use rand::Rng;
use rand_chacha::ChaCha8Rng;
use crate::individual::Individual;
use crate::selection::total_fitness;

verus! {

/// The random source that every operation draws from: the ChaCha generator
/// with eight rounds, seeded by the caller. A value of it is opaque here.
#[verifier::external_type_specification]
#[verifier::external_body]
pub struct ExChaCha8Rng(rand_chacha::ChaCha8Rng);

/// The error of `rand`'s weighted sampling. A value of it is opaque here.
#[verifier::external_type_specification]
#[verifier::external_body]
pub struct ExWeightedError(rand::distributions::WeightedError);

/// Flips a fair coin with `Rng::gen_ratio(1, 2)`, which gives each of the two
/// outcomes the same chance. Nothing is claimed of the outcome.
#[verifier::external_body]
pub(crate) fn fair_coin(rng: &mut ChaCha8Rng) -> (heads: bool) {
    rng.gen_ratio(1, 2)
}

/// Draws one candidate with `SliceRandom::choose_weighted`, each weighted by
/// its fitness. That function adds the weights up in `u32`, hence the bound.
/// It fails on an empty slice and where all weights are zero, and otherwise
/// draws a number below the total and returns the candidate in whose share of
/// the total that number falls, which is therefore a candidate of positive
/// weight.
#[verifier::external_body]
pub(crate) fn choose_by_fitness<'a, I: Individual>(rng: &mut ChaCha8Rng, population: &'a [I]) -> (r: Result<
    &'a I,
    WeightedError,
>)
    requires
        total_fitness(population@) <= u32::MAX,
    ensures
        r is Ok <==> total_fitness(population@) > 0,
        r matches Ok(chosen) ==> exists|i: usize|
            i < population@.len() && #[trigger] population@[i as int] == *chosen
                && population@[i as int].weight() > 0,
{
    population.choose_weighted(rng, |individual| individual.fitness())
}

} // verus!
