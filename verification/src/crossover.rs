use vstd::prelude::*;
use rand_chacha::ChaCha8Rng;
use crate::chromosome::Chromosome;
use crate::error::Error;
use crate::random::fair_coin;

verus! {

/// A way to combine two parent genomes of one length into a child genome.
pub trait CrossoverMethod {
    /// Whether `child` is a genome that this method may make of the two
    /// parents.
    spec fn offspring(&self, parent_a: Chromosome, parent_b: Chromosome, child: Chromosome) -> bool;

    /// Makes a child of two parents of equal length, and refuses parents of
    /// different lengths with `LengthMismatch`.
    fn crossover(&self, rng: &mut ChaCha8Rng, parent_a: &Chromosome, parent_b: &Chromosome) -> (r: Result<
        Chromosome,
        Error,
    >)
        ensures
            r is Ok <==> parent_a@.len() == parent_b@.len(),
            r matches Ok(child) ==> child@.len() == parent_a@.len() && self.offspring(
                *parent_a,
                *parent_b,
                child,
            ),
            r matches Err(e) ==> e == Error::LengthMismatch,
    ;
}

/// Uniform crossover: every gene of the child is taken from one of the two
/// parents at the same position, by a fair coin flipped for that position.
/// Heads takes the gene of the first parent, tails that of the second.
#[derive(Clone, Debug)]
pub struct UniformCrossover;

/// The child of two parents for given coin flips, one flip per position:
/// where the flip is heads (`true`) the gene of `parent_a`, else the gene of
/// `parent_b`.
pub open spec fn uniform_child(heads: Seq<bool>, parent_a: Seq<u32>, parent_b: Seq<u32>) -> Seq<u32> {
    Seq::new(
        parent_a.len(),
        |i: int|
            if heads[i] {
                parent_a[i]
            } else {
                parent_b[i]
            },
    )
}

/// Whether `child` has the parents' length and, at every position, the gene
/// that one of the two parents has there.
pub open spec fn alleles_from_parents(parent_a: Seq<u32>, parent_b: Seq<u32>, child: Seq<u32>) -> bool {
    &&& child.len() == parent_a.len()
    &&& child.len() == parent_b.len()
    &&& forall|i: int|
        0 <= i < child.len() ==> #[trigger] child[i] == parent_a[i] || child[i] == parent_b[i]
}

impl UniformCrossover {
    /// As many fair coin flips as asked for, in the order they were drawn.
    fn flips(rng: &mut ChaCha8Rng, count: usize) -> (heads: Vec<bool>)
        ensures
            heads@.len() == count,
    {
        let mut heads: Vec<bool> = Vec::with_capacity(count);
        let mut i: usize = 0;
        while i < count
            invariant
                i <= count,
                heads@.len() == i,
            decreases count - i,
        {
            heads.push(fair_coin(rng));
            i += 1;
        }
        heads
    }

    /// The child of two parents for coin flips already drawn. The three
    /// sequences must have one length, else the answer is `LengthMismatch`.
    pub fn combine(heads: &[bool], parent_a: &Chromosome, parent_b: &Chromosome) -> (r: Result<
        Chromosome,
        Error,
    >)
        ensures
            r is Ok <==> heads@.len() == parent_a@.len() && parent_a@.len() == parent_b@.len(),
            r matches Ok(child) ==> child@ == uniform_child(heads@, parent_a@, parent_b@),
            r matches Err(e) ==> e == Error::LengthMismatch,
    {
        if parent_a.len() != parent_b.len() || heads.len() != parent_a.len() {
            return Err(Error::LengthMismatch);
        }
        let genes_a = parent_a.iter();
        let genes_b = parent_b.iter();
        let mut genes: Vec<u32> = Vec::with_capacity(heads.len());
        let mut i: usize = 0;
        while i < heads.len()
            invariant
                i <= heads@.len(),
                heads@.len() == genes_a@.len(),
                heads@.len() == genes_b@.len(),
                genes@.len() == i,
                forall|k: int|
                    0 <= k < i ==> #[trigger] genes@[k] == uniform_child(heads@, genes_a@, genes_b@)[k],
            decreases heads@.len() - i,
        {
            let gene = if heads[i] {
                genes_a[i]
            } else {
                genes_b[i]
            };
            genes.push(gene);
            i += 1;
        }
        Ok(Chromosome::new(genes))
    }
}

impl CrossoverMethod for UniformCrossover {
    /// The child is what some run of coin flips, one per position, makes of
    /// the two parents.
    open spec fn offspring(&self, parent_a: Chromosome, parent_b: Chromosome, child: Chromosome) -> bool {
        exists|heads: Seq<bool>|
            heads.len() == parent_a@.len() && child@ == #[trigger] uniform_child(
                heads,
                parent_a@,
                parent_b@,
            )
    }

    /// Flips one fair coin per position, first position first, and combines the
    /// parents by those flips.
    fn crossover(&self, rng: &mut ChaCha8Rng, parent_a: &Chromosome, parent_b: &Chromosome) -> (r: Result<
        Chromosome,
        Error,
    >) {
        if parent_a.len() != parent_b.len() {
            return Err(Error::LengthMismatch);
        }
        let heads = Self::flips(rng, parent_a.len());
        Self::combine(heads.as_slice(), parent_a, parent_b)
    }
}

/// Allele origin: in a child of uniform crossover every gene is the gene
/// that one of its two parents has at the same position, and the child is as
/// long as each parent.
pub proof fn uniform_offspring_alleles(parent_a: Chromosome, parent_b: Chromosome, child: Chromosome)
    requires
        parent_a@.len() == parent_b@.len(),
        UniformCrossover.offspring(parent_a, parent_b, child),
    ensures
        alleles_from_parents(parent_a@, parent_b@, child@),
{
}

} // verus!
