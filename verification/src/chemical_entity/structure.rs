//! Validation of structure strings against the knowledge base's format
//! constraints.
use crate::error::CrateError;
use crate::text::owned;
use vstd::prelude::*;

verus! {

/// Whether a string satisfies the knowledge base's canonical-structure
/// pattern: one or more characters drawn from the SMILES alphabet.
pub uninterp spec fn canonical_smiles_accepted(s: Seq<char>) -> bool;

/// Tests a canonical structure string.
///
/// Relies on `regex::Regex::is_match` with the fixed pattern
/// `^[A-Za-z0-9+\-\*=#$:().>/\\\[\]%]+$`; with a fixed pattern the answer is
/// a function of the string alone.
#[verifier::external_body]
fn canonical_smiles_is_match(s: &str) -> (r: bool)
    ensures
        r == canonical_smiles_accepted(s@),
{
    match regex::Regex::new(r#"^[A-Za-z0-9+\-\*=#$:().>/\\\[\]%]+$"#) {
        Ok(re) => re.is_match(s),
        Err(_) => false,
    }
}

/// Whether a string satisfies the knowledge base's isomeric-structure
/// pattern, which demands a stereochemistry marker.
pub uninterp spec fn isomeric_smiles_accepted(s: Seq<char>) -> bool;

/// Tests an isomeric structure string.
///
/// Relies on `regex::Regex::is_match` with the fixed pattern
/// `^[A-Za-z0-9+\-\*=#$:().>\[\]%]*([@\\/]|\\d)[A-Za-z0-9+\-\*=#$:().>@\\/\[\]%]+$`;
/// with a fixed pattern the answer is a function of the string alone.
#[verifier::external_body]
fn isomeric_smiles_is_match(s: &str) -> (r: bool)
    ensures
        r == isomeric_smiles_accepted(s@),
{
    match regex::Regex::new(
        r#"^[A-Za-z0-9+\-\*=#$:().>\[\]%]*([@\\/]|\\d)[A-Za-z0-9+\-\*=#$:().>@\\/\[\]%]+$"#,
    ) {
        Ok(re) => re.is_match(s),
        Err(_) => false,
    }
}

/// Whether an optional canonical structure passes validation.
pub open spec fn canonical_ok(canonical: Option<String>) -> bool {
    match canonical {
        Some(v) => canonical_smiles_accepted(v@),
        None => true,
    }
}

/// Whether an optional isomeric structure passes validation.
pub open spec fn isomeric_ok(isomeric: Option<String>) -> bool {
    match isomeric {
        Some(v) => isomeric_smiles_accepted(v@),
        None => true,
    }
}

/// Validates canonical and isomeric structure strings against the knowledge
/// base's format constraints; both pass through unchanged on success, and the
/// first offending value is reported otherwise.
pub fn validate_smiles_pair(canonical: Option<String>, isomeric: Option<String>) -> (r: Result<
    (Option<String>, Option<String>),
    CrateError,
>)
    ensures
        r is Ok <==> canonical_ok(canonical) && isomeric_ok(isomeric),
        r is Ok ==> r.unwrap() == (canonical, isomeric),
        !canonical_ok(canonical) ==> (r matches Err(
            CrateError::InvalidFormat { column, value, message },
        ) && column@ == "canonical_smiles"@ && value@ == canonical.unwrap()@ && message@
            == "Canonical SMILES must match Wikidata's SMILES regex."@),
        canonical_ok(canonical) && !isomeric_ok(isomeric) ==> (r matches Err(
            CrateError::InvalidFormat { column, value, message },
        ) && column@ == "isomeric_smiles"@ && value@ == isomeric.unwrap()@ && message@
            == "Isomeric SMILES must match Wikidata's SMILES regex and cannot contain escaped slashes."@),
{
    if let Some(value) = &canonical {
        if !canonical_smiles_is_match(value.as_str()) {
            return Err(
                CrateError::InvalidFormat {
                    column: owned("canonical_smiles"),
                    value: value.clone(),
                    message: owned("Canonical SMILES must match Wikidata's SMILES regex."),
                },
            );
        }
    }
    if let Some(value) = &isomeric {
        if !isomeric_smiles_is_match(value.as_str()) {
            return Err(
                CrateError::InvalidFormat {
                    column: owned("isomeric_smiles"),
                    value: value.clone(),
                    message: owned(
                        "Isomeric SMILES must match Wikidata's SMILES regex and cannot contain escaped slashes.",
                    ),
                },
            );
        }
    }
    Ok((canonical, isomeric))
}

} // verus!
