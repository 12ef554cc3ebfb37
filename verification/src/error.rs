use vstd::prelude::*;

verus! {

/// Why an operation refused its input.
#[derive(Clone, Copy, Debug, PartialEq, Eq, Structural)]
pub enum Error {
    /// The population holds no candidate.
    EmptyPopulation,
    /// Every candidate of the population has fitness zero.
    NoPositiveFitness,
    /// The fitness values of the population add up to more than `u32::MAX`.
    FitnessOverflow,
    /// The two parents given to a crossover differ in length.
    LengthMismatch,
    /// A gene was asked for at an index at or past the genome's length.
    IndexOutOfBounds,
}

} // verus!
