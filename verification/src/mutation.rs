use vstd::prelude::*;
use rand_chacha::ChaCha8Rng;
use crate::chromosome::Chromosome;

verus! {

/// A way to perturb a genome in place. The genome keeps its length.
///
/// An implementation in code that is not verified writes `mutated` as an
/// ordinary function, which nothing calls.
pub trait MutationMethod {
    /// Whether this method may turn the genome `before` into `after`.
    spec fn mutated(&self, before: Chromosome, after: Chromosome) -> bool;

    /// Perturbs `child` in place.
    fn mutate(&self, rng: &mut ChaCha8Rng, child: &mut Chromosome)
        ensures
            final(child)@.len() == old(child)@.len(),
            self.mutated(*old(child), *final(child)),
    ;
}

} // verus!
