//! Taxon handling.
pub mod normalizer;
