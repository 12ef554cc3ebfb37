use vstd::prelude::*;
use rand_chacha::ChaCha8Rng;
use crate::chromosome::Chromosome;
use crate::crossover::CrossoverMethod;
use crate::error::Error;
use crate::individual::Individual;
use crate::mutation::MutationMethod;
use crate::selection::SelectionMethod;

verus! {

/// The generational step: a selection, a crossover and a mutation method,
/// owned together.
pub struct GeneticAlgorithm<S, C, M> {
    selection_method: S,
    crossover_method: C,
    mutation_method: M,
}

impl<S, C: CrossoverMethod, M: MutationMethod> GeneticAlgorithm<S, C, M> {
    /// The selection method that the step uses.
    pub closed spec fn selection(&self) -> S {
        self.selection_method
    }

    /// The crossover method that the step uses.
    pub closed spec fn crossover(&self) -> C {
        self.crossover_method
    }

    /// The mutation method that the step uses.
    pub closed spec fn mutation(&self) -> M {
        self.mutation_method
    }

    /// Whether `child` can be bred from the candidates at `a` and `b` with
    /// `crossed` as the genome between crossover and mutation: both may be
    /// selected, `crossed` is an offspring of their genomes, and the child's
    /// genome is a mutation of `crossed`.
    pub open spec fn breeds<I: Individual>(
        &self,
        population: &[I],
        a: usize,
        b: usize,
        crossed: Chromosome,
        child: I,
    ) -> bool where S: SelectionMethod<I> {
        &&& a < population@.len()
        &&& b < population@.len()
        &&& self.selection().may_select(population, a)
        &&& self.selection().may_select(population, b)
        &&& self.crossover().offspring(
            population@[a as int].genome(),
            population@[b as int].genome(),
            crossed,
        )
        &&& self.mutation().mutated(crossed, child.genome())
        &&& child.genome()@.len() == population@[a as int].genome()@.len()
    }

    /// Whether `child` can be bred from two candidates of the population,
    /// which may be one and the same.
    pub open spec fn bred_from<I: Individual>(&self, population: &[I], child: I) -> bool where
        S: SelectionMethod<I>,
     {
        exists|a: usize, b: usize, crossed: Chromosome| #[trigger]
            self.breeds(population, a, b, crossed, child)
    }

    /// Whether the candidates at `a` and `b` may both be selected and have
    /// genomes of different lengths.
    pub open spec fn mismatch<I: Individual>(&self, population: &[I], a: usize, b: usize) -> bool where
        S: SelectionMethod<I>,
     {
        &&& a < population@.len()
        &&& b < population@.len()
        &&& self.selection().may_select(population, a)
        &&& self.selection().may_select(population, b)
        &&& population@[a as int].genome()@.len() != population@[b as int].genome()@.len()
    }

    /// Puts the three methods together.
    pub fn new(selection_method: S, crossover_method: C, mutation_method: M) -> (r: Self)
        ensures
            r.selection() == selection_method,
            r.crossover() == crossover_method,
            r.mutation() == mutation_method,
    {
        GeneticAlgorithm { selection_method, crossover_method, mutation_method }
    }

    /// Breeds the next generation, as large as the given one. Each new
    /// candidate is made in turn: two parents are selected, one after the
    /// other, their genomes are crossed, the child genome is mutated, and
    /// the result is wrapped into a candidate. The given population is left
    /// as it is.
    ///
    /// An empty population is refused with `EmptyPopulation`, a population
    /// that the selection method refuses with that method's error. The step
    /// fails with `LengthMismatch` when two selected parents differ in
    /// genome length, which cannot happen where all candidates that may be
    /// selected have genomes of one length.
    pub fn evolve<I: Individual>(&self, rng: &mut ChaCha8Rng, population: &[I]) -> (r: Result<
        Vec<I>,
        Error,
    >) where S: SelectionMethod<I>
        ensures
            population@.len() == 0 <==> r == Err::<Vec<I>, Error>(Error::EmptyPopulation),
            population@.len() > 0 ==> (self.selection().refusal(population) matches Some(e) ==> r
                == Err::<Vec<I>, Error>(e)),
            population@.len() > 0 && self.selection().refusal(population) is None ==> r is Ok || r
                == Err::<Vec<I>, Error>(Error::LengthMismatch),
            r == Err::<Vec<I>, Error>(Error::LengthMismatch) ==> exists|a: usize, b: usize| #[trigger]
                self.mismatch(population, a, b),
            population@.len() > 0 && self.selection().refusal(population) is None && (forall|
                a: usize,
                b: usize,
            | !#[trigger] self.mismatch(population, a, b)) ==> r is Ok,
            r matches Ok(next) ==> next@.len() == population@.len() && forall|k: int|
                0 <= k < next@.len() ==> self.bred_from(population, #[trigger] next@[k]),
    {
        if population.len() == 0 {
            return Err(Error::EmptyPopulation);
        }
        let mut next: Vec<I> = Vec::with_capacity(population.len());
        let mut k: usize = 0;
        while k < population.len()
            invariant
                k <= population@.len(),
                population@.len() > 0,
                next@.len() == k,
                k > 0 ==> self.selection().refusal(population) is None,
                forall|j: int| 0 <= j < k ==> self.bred_from(population, #[trigger] next@[j]),
            decreases population@.len() - k,
        {
            let parent_a = match self.selection_method.select(rng, population) {
                Ok(parent) => parent,
                Err(e) => {
                    return Err(e);
                },
            };
            let parent_b = match self.selection_method.select(rng, population) {
                Ok(parent) => parent,
                Err(e) => {
                    return Err(e);
                },
            };
            let ghost a = choose|i: usize|
                i < population@.len() && #[trigger] population@[i as int] == *parent_a
                    && self.selection().may_select(population, i);
            let ghost b = choose|i: usize|
                i < population@.len() && #[trigger] population@[i as int] == *parent_b
                    && self.selection().may_select(population, i);
            let mut child = match self.crossover_method.crossover(
                rng,
                parent_a.chromosome(),
                parent_b.chromosome(),
            ) {
                Ok(child) => child,
                Err(e) => {
                    assert(self.mismatch(population, a, b));
                    return Err(e);
                },
            };
            let ghost crossed = child;
            self.mutation_method.mutate(rng, &mut child);
            let individual = I::create(child);
            assert(self.breeds(population, a, b, crossed, individual));
            next.push(individual);
            k += 1;
        }
        Ok(next)
    }
}

} // verus!
