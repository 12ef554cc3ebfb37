//! One generational step of a genetic algorithm: fitness-proportionate
//! selection, uniform crossover and a mutation of the caller's choice,
//! composed by [`GeneticAlgorithm`].

pub mod algorithm;
pub mod chromosome;
pub mod crossover;
pub mod error;
pub mod individual;
pub mod mutation;
pub mod random;
pub mod selection;

pub use algorithm::GeneticAlgorithm;
pub use chromosome::Chromosome;
pub use crossover::CrossoverMethod;
pub use crossover::UniformCrossover;
pub use error::Error;
pub use individual::Individual;
pub use mutation::MutationMethod;
pub use selection::RouletteWheelSelection;
pub use selection::SelectionMethod;
