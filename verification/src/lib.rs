//! A ledger-style registry of uniquely owned digital creatures ("kitties").
//!
//! Every kitty is an immutable 16-byte genome; its one derived trait, a
//! binary sex, is the parity of genome byte 0. The [`Registry`] keys stored
//! kitties by `(owner, id)`, allocates ids from a single monotonically
//! increasing counter shared by all owners, and offers two operations:
//! [`Registry::create`], which stores a caller-supplied fresh genome, and
//! [`Registry::breed`], which derives an offspring genome from two kitties
//! the caller already owns, every bit inherited wholesale from one parent
//! according to a fixed selector mask.

mod kitty;
mod registry;

pub use kitty::{
    combine_dna, combine_genome, lemma_combine_dna_deterministic, lemma_combine_dna_one_selector,
    lemma_combine_dna_zero_selector, lemma_combine_genome_deterministic,
    lemma_combine_genome_one_selector, lemma_combine_genome_zero_selector, spec_combine_dna, Kitty,
    KittyGender,
};
pub use registry::{
    lemma_allocated_ids_distinct, AccountId, KittyId, Registry, RegistryError, BREED_SELECTOR,
};
