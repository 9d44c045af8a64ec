//! The entity model: the genome-carrying [`Kitty`] value, its derived sex,
//! and the pure genome-combination rule used for breeding.

use vstd::prelude::*;

verus! {

/// A digital creature: an immutable value wrapping its 16-byte genome.
///
/// A kitty has no identity of its own beyond the `(owner, id)` key the
/// registry assigns to it; kitties with equal genomes are equal values.
#[derive(Clone, Copy, PartialEq, Eq, Debug)]
pub struct Kitty(pub [u8; 16]);

/// The binary sex trait of a kitty. It is derived from the genome on demand,
/// never stored.
#[derive(Clone, Copy, PartialEq, Eq, Structural, Debug)]
pub enum KittyGender {
    M,
    F,
}

impl Kitty {
    /// The genome as a mathematical sequence of bytes (always 16 of them).
    pub open spec fn dna(self) -> Seq<u8> {
        self.0@
    }

    /// Sex as a function of the parity of genome byte 0: even is female,
    /// odd is male.
    pub open spec fn spec_gender(&self) -> KittyGender {
        if self.0[0] % 2 == 0 {
            KittyGender::F
        } else {
            KittyGender::M
        }
    }

    /// Derives the kitty's sex from its first genome byte. Pure and total:
    /// no failure mode.
    #[verifier::when_used_as_spec(spec_gender)]
    pub fn gender(&self) -> (g: KittyGender)
        ensures
            g == self.spec_gender(),
    {
        if self.0[0] % 2 == 0 {
            KittyGender::F
        } else {
            KittyGender::M
        }
    }
}

/// One byte of trait inheritance: each bit of the result is taken from
/// `parent_1` where the selector bit is 0 and from `parent_2` where it is 1.
pub open spec fn spec_combine_dna(parent_1: u8, parent_2: u8, selector: u8) -> u8 {
    (!selector & parent_1) | (selector & parent_2)
}

/// Combines one byte of two parent genomes under a selector byte.
#[verifier::when_used_as_spec(spec_combine_dna)]
pub fn combine_dna(parent_1: u8, parent_2: u8, selector: u8) -> (r: u8)
    ensures
        r == spec_combine_dna(parent_1, parent_2, selector),
{
    (!selector & parent_1) | (selector & parent_2)
}

/// Whole-genome combination: byte `i` of the result combines byte `i` of each
/// parent, with the single selector byte shared by every position.
pub open spec fn combine_genome(a: Seq<u8>, b: Seq<u8>, selector: u8) -> Seq<u8> {
    Seq::new(a.len(), |i: int| spec_combine_dna(a[i], b[i], selector))
}

/// Combination is a pure function: two results obtained from identical
/// inputs are identical.
pub proof fn lemma_combine_dna_deterministic(
    parent_1: u8,
    parent_2: u8,
    selector: u8,
    r1: u8,
    r2: u8,
)
    requires
        r1 == spec_combine_dna(parent_1, parent_2, selector),
        r2 == spec_combine_dna(parent_1, parent_2, selector),
    ensures
        r1 == r2,
{
}

/// With selector 0 every bit of the combined byte comes from the first parent.
pub proof fn lemma_combine_dna_zero_selector(parent_1: u8, parent_2: u8)
    ensures
        spec_combine_dna(parent_1, parent_2, 0) == parent_1,
{
    assert(((!0u8) & parent_1) | (0u8 & parent_2) == parent_1) by (bit_vector);
}

/// With selector 0xFF every bit of the combined byte comes from the second
/// parent.
pub proof fn lemma_combine_dna_one_selector(parent_1: u8, parent_2: u8)
    ensures
        spec_combine_dna(parent_1, parent_2, 0xff) == parent_2,
{
    assert(((!0xffu8) & parent_1) | (0xffu8 & parent_2) == parent_2) by (bit_vector);
}

/// With selector 0 the combined genome is the first parent's genome, for all
/// 16-byte genomes.
pub proof fn lemma_combine_genome_zero_selector(a: Seq<u8>, b: Seq<u8>)
    requires
        a.len() == 16,
        b.len() == 16,
    ensures
        combine_genome(a, b, 0) == a,
{
    assert forall|i: int| 0 <= i < 16 implies combine_genome(a, b, 0)[i] == a[i] by {
        lemma_combine_dna_zero_selector(a[i], b[i]);
    }
    assert(combine_genome(a, b, 0) =~= a);
}

/// With selector 0xFF the combined genome is the second parent's genome, for
/// all 16-byte genomes.
pub proof fn lemma_combine_genome_one_selector(a: Seq<u8>, b: Seq<u8>)
    requires
        a.len() == 16,
        b.len() == 16,
    ensures
        combine_genome(a, b, 0xff) == b,
{
    assert forall|i: int| 0 <= i < 16 implies combine_genome(a, b, 0xff)[i] == b[i] by {
        lemma_combine_dna_one_selector(a[i], b[i]);
    }
    assert(combine_genome(a, b, 0xff) =~= b);
}

/// Combination at the genome level is equally a pure function of its inputs.
pub proof fn lemma_combine_genome_deterministic(
    a: Seq<u8>,
    b: Seq<u8>,
    selector: u8,
    r1: Seq<u8>,
    r2: Seq<u8>,
)
    requires
        r1 == combine_genome(a, b, selector),
        r2 == combine_genome(a, b, selector),
    ensures
        r1 == r2,
{
}

} // verus!
