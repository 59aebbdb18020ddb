//! The enriched record: the input row plus the descriptors the chemistry
//! collaborator resolved for it.  The network side of enrichment lives
//! outside the library; this module holds the record itself and the pure
//! field derivations.
use vstd::prelude::*;

verus! {

/// An input row together with the structural descriptors resolved for it.
/// `other_descriptors` is a deliberately open-ended bag of extra descriptor
/// fields, carried as raw text and never interpreted here.
#[derive(Debug, Clone)]
pub struct EnrichedData {
    pub chemical_entity_name: String,
    pub input_smiles: String,
    pub sanitized_smiles: String,
    pub taxon_name: String,
    pub reference_doi: String,
    pub canonical_smiles: Option<String>,
    pub isomeric_smiles: Option<String>,
    pub inchi: Option<String>,
    pub inchikey: Option<String>,
    pub molecular_formula: Option<String>,
    pub other_descriptors: Option<Vec<(String, String)>>,
}

/// Chooses the canonical and isomeric structure strings out of the
/// enrichment payload: the canonical form prefers the parent structure and
/// falls back to the standardized one; the standardized form counts as
/// isomeric only when stereochemistry is defined.
pub fn choose_structure_smiles(
    standardized: &String,
    parental_canonical: &Option<String>,
    has_stereo_defined: bool,
) -> (r: (Option<String>, Option<String>))
    ensures
        r.0 is Some,
        r.0.unwrap()@ == (match parental_canonical {
            Some(p) => p@,
            None => standardized@,
        }),
        r.1 is Some <==> has_stereo_defined,
        has_stereo_defined ==> r.1.unwrap()@ == standardized@,
{
    let canonical = match parental_canonical {
        Some(p) => p.clone(),
        None => standardized.clone(),
    };
    let isomeric: Option<String> = if has_stereo_defined {
        Some(standardized.clone())
    } else {
        None
    };
    (Some(canonical), isomeric)
}

} // verus!
