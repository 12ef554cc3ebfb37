use vstd::prelude::*;
use crate::error::Error;

verus! {

/// A genome: a sequence of genes whose length is fixed once it is built.
///
/// A gene is held as the 32 bits that encode it (for a single-precision real,
/// its bit pattern). Nothing here interprets a gene; genes are stored, read
/// and copied as they are.
#[derive(Clone, Debug)]
pub struct Chromosome {
    genes: Vec<u32>,
}

impl View for Chromosome {
    type V = Seq<u32>;

    /// The genes, first to last.
    closed spec fn view(&self) -> Seq<u32> {
        self.genes@
    }
}

impl Chromosome {
    /// A genome of exactly the given genes, in the given order.
    pub fn new(genes: Vec<u32>) -> (r: Self)
        ensures
            r@ == genes@,
    {
        Chromosome { genes }
    }

    /// Number of genes.
    pub fn len(&self) -> (n: usize)
        ensures
            n == self@.len(),
    {
        self.genes.len()
    }

    /// Whether the genome holds no gene at all.
    pub fn is_empty(&self) -> (empty: bool)
        ensures
            empty == (self@.len() == 0),
    {
        self.genes.len() == 0
    }

    /// The gene at `index`, or `IndexOutOfBounds` when the genome is not that
    /// long.
    pub fn at(&self, index: usize) -> (r: Result<u32, Error>)
        ensures
            index < self@.len() ==> r == Ok::<u32, Error>(self@[index as int]),
            index >= self@.len() ==> r == Err::<u32, Error>(Error::IndexOutOfBounds),
    {
        if index < self.genes.len() {
            Ok(self.genes[index])
        } else {
            Err(Error::IndexOutOfBounds)
        }
    }

    /// All genes in order, to read.
    pub fn iter(&self) -> (genes: &[u32])
        ensures
            genes@ == self@,
    {
        self.genes.as_slice()
    }

    /// All genes in order, each of them assignable. The slice cannot grow or
    /// shrink, so the genome keeps its length.
    pub fn iter_mut(&mut self) -> (genes: &mut [u32])
        ensures
            genes@ == old(self)@,
            final(genes)@ == final(self)@,
    {
        self.genes.as_mut_slice()
    }

    /// The genes, given up by the genome.
    pub fn into_vec(self) -> (genes: Vec<u32>)
        ensures
            genes@ == self@,
    {
        self.genes
    }
}

impl core::ops::Index<usize> for Chromosome {
    type Output = u32;

    /// The gene at `index`, which must be below the genome's length.
    fn index(&self, index: usize) -> (gene: &u32)
        ensures
            *gene == self@[index as int],
    {
        &self.genes[index]
    }
}

impl vstd::std_specs::core::IndexSpecImpl<usize> for Chromosome {
    open spec fn index_req(&self, index: &usize) -> bool {
        *index < self@.len()
    }
}

} // verus!
