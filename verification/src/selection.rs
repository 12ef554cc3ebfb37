use vstd::prelude::*;
use rand_chacha::ChaCha8Rng;
use crate::error::Error;
use crate::individual::Individual;
use crate::random::choose_by_fitness;

verus! {

/// The fitness values of a population added up.
pub open spec fn total_fitness<I: Individual>(population: Seq<I>) -> nat
    decreases population.len(),
{
    if population.len() == 0 {
        0
    } else {
        total_fitness(population.drop_last()) + population.last().weight() as nat
    }
}

/// A way to pick a parent from a population.
pub trait SelectionMethod<I: Individual> {
    /// `None` where this method can pick from `population`, else the error
    /// with which it refuses.
    spec fn refusal(&self, population: &[I]) -> Option<Error>;

    /// Whether this method may pick the candidate at `index`.
    spec fn may_select(&self, population: &[I], index: usize) -> bool;

    /// Picks one candidate of the population. An empty population is refused
    /// with `EmptyPopulation`; nothing else is refused with that error, and
    /// nothing with `LengthMismatch`.
    fn select<'a>(&self, rng: &mut ChaCha8Rng, population: &'a [I]) -> (r: Result<&'a I, Error>)
        ensures
            r is Ok <==> self.refusal(population) is None,
            r matches Err(e) ==> self.refusal(population) == Some(e),
            population@.len() == 0 <==> r == Err::<&I, Error>(Error::EmptyPopulation),
            r != Err::<&I, Error>(Error::LengthMismatch),
            r matches Ok(chosen) ==> exists|i: usize|
                i < population@.len() && #[trigger] population@[i as int] == *chosen
                    && self.may_select(population, i),
    ;
}

/// Fitness-proportionate selection: a candidate is drawn with a chance
/// proportional to its fitness.
pub struct RouletteWheelSelection;

impl RouletteWheelSelection {
    /// The fitness values of the population added up, or `None` where the
    /// sum is past `u32::MAX`.
    fn total<I: Individual>(population: &[I]) -> (r: Option<u32>)
        ensures
            r matches Some(sum) ==> sum == total_fitness(population@),
            r is None ==> total_fitness(population@) > u32::MAX,
    {
        let mut sum: u32 = 0;
        let mut i: usize = 0;
        while i < population.len()
            invariant
                i <= population@.len(),
                sum == total_fitness(population@.take(i as int)),
            decreases population@.len() - i,
        {
            proof {
                assert(population@.take(i + 1).drop_last() =~= population@.take(i as int));
                lemma_total_fitness_grows(population@, i + 1);
            }
            let weight = population[i].fitness();
            if weight > u32::MAX - sum {
                return None;
            }
            sum = sum + weight;
            i += 1;
        }
        assert(population@.take(i as int) =~= population@);
        Some(sum)
    }
}

/// A longer prefix of a population has at least the total fitness of a
/// shorter one.
proof fn lemma_total_fitness_grows<I: Individual>(population: Seq<I>, count: int)
    requires
        0 <= count <= population.len(),
    ensures
        total_fitness(population.take(count)) <= total_fitness(population),
    decreases population.len() - count,
{
    if count < population.len() {
        assert(population.take(count + 1).drop_last() =~= population.take(count));
        lemma_total_fitness_grows(population, count + 1);
    } else {
        assert(population.take(count) =~= population);
    }
}

impl<I: Individual> SelectionMethod<I> for RouletteWheelSelection {
    /// Refused are the empty population, one whose fitness values add up to
    /// more than `u32::MAX`, and one in which no candidate has a positive
    /// fitness.
    open spec fn refusal(&self, population: &[I]) -> Option<Error> {
        if population@.len() == 0 {
            Some(Error::EmptyPopulation)
        } else if total_fitness(population@) > u32::MAX {
            Some(Error::FitnessOverflow)
        } else if total_fitness(population@) == 0 {
            Some(Error::NoPositiveFitness)
        } else {
            None
        }
    }

    /// Any candidate of positive fitness may be picked, and no other.
    open spec fn may_select(&self, population: &[I], index: usize) -> bool {
        index < population@.len() && population@[index as int].weight() > 0
    }

    fn select<'a>(&self, rng: &mut ChaCha8Rng, population: &'a [I]) -> (r: Result<&'a I, Error>) {
        if population.len() == 0 {
            return Err(Error::EmptyPopulation);
        }
        match Self::total(population) {
            None => Err(Error::FitnessOverflow),
            Some(sum) => {
                if sum == 0 {
                    Err(Error::NoPositiveFitness)
                } else {
                    match choose_by_fitness(rng, population) {
                        Ok(chosen) => Ok(chosen),
                        // Not reached: the draw fails only where the total is zero.
                        Err(_) => Err(Error::NoPositiveFitness),
                    }
                }
            },
        }
    }
}

} // verus!
