use vstd::prelude::*;
use crate::chromosome::Chromosome;

verus! {

/// A candidate solution: it wraps a genome and has a fitness.
///
/// `weight` and `genome` say what a candidate is, and `create`, `fitness`
/// and `chromosome` must agree with them. Fitness is a whole-numbered weight:
/// a candidate with twice the fitness is selected twice as often, one with
/// fitness zero never.
///
/// An implementation in code that is not verified writes `weight` and
/// `genome` as ordinary functions, which nothing calls.
pub trait Individual: Sized {
    /// The candidate's fitness.
    spec fn weight(&self) -> u32;

    /// The genome that the candidate wraps.
    spec fn genome(&self) -> Chromosome;

    /// Wraps a genome into a candidate.
    fn create(chromosome: Chromosome) -> (r: Self)
        ensures
            r.genome() == chromosome,
    ;

    /// Reports the candidate's fitness.
    fn fitness(&self) -> (w: u32)
        ensures
            w == self.weight(),
    ;

    /// Lends the candidate's genome.
    fn chromosome(&self) -> (c: &Chromosome)
        ensures
            *c == self.genome(),
    ;
}

} // verus!
