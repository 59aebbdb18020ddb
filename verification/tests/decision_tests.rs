use lotus_o3::enrichment::EnrichedData;
use lotus_o3::reference::{CalendarDate, ReferenceMetadata};
use lotus_o3::report::{
    build_record_report, build_record_reports, OCCURRENCE_DEFERRED_ISSUE,
    REFERENCE_CURATION_ISSUE, TAXON_UNRESOLVED_ISSUE,
};
use lotus_o3::wikidata::checker::WikidataInfo;
use lotus_o3::wikidata::writer::generate_quickstatements;

fn record(
    chem_qid: Option<&str>,
    tax_qid: Option<&str>,
    ref_qid: Option<&str>,
    occurrence_exists: bool,
    metadata: Option<ReferenceMetadata>,
) -> (EnrichedData, WikidataInfo) {
    (
        EnrichedData {
            chemical_entity_name: "TestChem".to_string(),
            input_smiles: "C".to_string(),
            sanitized_smiles: "C".to_string(),
            taxon_name: "TestTaxon".to_string(),
            reference_doi: "10.1/test".to_string(),
            canonical_smiles: Some("C".to_string()),
            isomeric_smiles: None,
            inchi: None,
            inchikey: None,
            molecular_formula: None,
            other_descriptors: None,
        },
        WikidataInfo {
            chemical_qid: chem_qid.map(String::from),
            taxon_qid: tax_qid.map(String::from),
            reference_qid: ref_qid.map(String::from),
            occurrence_exists,
            reference_metadata: metadata,
        },
    )
}

fn sample_metadata(doi: &str) -> ReferenceMetadata {
    ReferenceMetadata {
        doi: doi.to_string(),
        title: "A Title".to_string(),
        title_language: None,
        language_qid: None,
        entity_type_qid: "Q13442814".to_string(),
        publication_date: None,
        volume: None,
        issue: None,
        container_title: None,
        issn: None,
        journal_qid: None,
        authors: vec![],
        retrieved_on: CalendarDate {
            year: 2025,
            month: 1,
            day: 2,
        },
    }
}

#[test]
fn test_nothing_resolved_creates_without_claim() {
    // Nothing exists yet, but reference metadata is at hand.
    let (data, info) = record(None, None, None, false, Some(sample_metadata("10.1/x")));
    let report = build_record_report(&data, &info);
    assert!(report.create_chemical);
    assert!(report.create_reference);
    assert!(!report.create_occurrence);
    // Deferral needs a resolved taxon, so the claim is not even deferred.
    assert!(!report.occurrence_waiting_on_reference);
    assert!(report.issues.iter().any(|i| i == TAXON_UNRESOLVED_ISSUE));
}

#[test]
fn test_nothing_resolved_without_metadata() {
    let (data, info) = record(None, None, None, false, None);
    let report = build_record_report(&data, &info);
    assert!(report.create_chemical);
    assert!(!report.create_reference);
    assert!(!report.create_occurrence);
    assert!(!report.occurrence_waiting_on_reference);
    assert!(report.issues.iter().any(|i| i == TAXON_UNRESOLVED_ISSUE));
    assert!(report.issues.iter().any(|i| i == REFERENCE_CURATION_ISSUE));
}

#[test]
fn test_all_existing_emits_single_claim_line() {
    let pair = record(Some("Q1"), Some("Q2"), Some("Q3"), false, None);
    let report = build_record_report(&pair.0, &pair.1);
    assert!(!report.create_chemical);
    assert!(!report.create_reference);
    assert!(report.create_occurrence);
    let lines = generate_quickstatements(&vec![pair]);
    assert_eq!(lines.len(), 1);
    assert_eq!(lines[0], "Q1\tP703\tQ2\tS248\tQ3");
    assert!(!lines.iter().any(|l| l == "CREATE"));
}

#[test]
fn test_reference_created_once_for_shared_doi() {
    // Two records share one missing reference; its creation block must be
    // emitted exactly once across the batch.
    let first = record(
        Some("Q1"),
        Some("Q2"),
        None,
        false,
        Some(sample_metadata("10.5772/shared")),
    );
    let second = record(
        Some("Q8"),
        Some("Q9"),
        None,
        false,
        Some(sample_metadata("10.5772/shared")),
    );
    let lines = generate_quickstatements(&vec![first, second]);
    let creates = lines.iter().filter(|l| l.as_str() == "CREATE").count();
    assert_eq!(creates, 1);
}

#[test]
fn test_reference_dedup_is_case_insensitive() {
    let first = record(
        Some("Q1"),
        Some("Q2"),
        None,
        false,
        Some(sample_metadata("10.5772/SHARED")),
    );
    let second = record(
        Some("Q8"),
        Some("Q9"),
        None,
        false,
        Some(sample_metadata("10.5772/shared")),
    );
    let lines = generate_quickstatements(&vec![first, second]);
    let creates = lines.iter().filter(|l| l.as_str() == "CREATE").count();
    assert_eq!(creates, 1);
}

#[test]
fn test_round_trip_existing_claim() {
    // All identifiers known and the claim already exists: nothing to do.
    let pair = record(Some("Q1"), Some("Q2"), Some("Q3"), true, None);
    let report = build_record_report(&pair.0, &pair.1);
    assert!(report.issues.is_empty());
    assert!(!report.create_chemical);
    assert!(!report.create_reference);
    assert!(!report.create_occurrence);
    assert!(!report.occurrence_waiting_on_reference);
    let lines = generate_quickstatements(&vec![pair]);
    assert!(lines.is_empty());
}

#[test]
fn test_scenario_chemical_absent_claim_inside_block() {
    // Chemical absent, taxon and reference known, claim absent: the claim is
    // stated inside the creation block, citing the block's own identity.
    let pair = record(None, Some("Q2"), Some("Q3"), false, None);
    let lines = generate_quickstatements(&vec![pair]);
    assert!(lines.iter().any(|l| l == "CREATE"));
    let create_at = lines.iter().position(|l| l == "CREATE").unwrap();
    let claim_at = lines
        .iter()
        .position(|l| l == "LAST\tP703\tQ2\tS248\tQ3")
        .unwrap();
    assert!(create_at < claim_at);
    // No standalone claim line outside the block.
    assert!(!lines.iter().any(|l| l.starts_with("Q")));
}

#[test]
fn test_scenario_taxon_absent_blocks_claim() {
    // Chemical known, taxon absent, reference known, claim absent: no claim
    // line anywhere, and the taxon issue is reported.
    let pair = record(Some("Q1"), None, Some("Q3"), false, None);
    let report = build_record_report(&pair.0, &pair.1);
    assert!(report.issues.iter().any(|i| i == TAXON_UNRESOLVED_ISSUE));
    let lines = generate_quickstatements(&vec![pair]);
    assert!(!lines.iter().any(|l| l.contains("P703")));
    assert!(lines.is_empty());
}

#[test]
fn test_scenario_reference_pending_defers_claim() {
    // Chemical and taxon known, reference absent but metadata present: the
    // claim is deferred and only the reference block is emitted.
    let pair = record(
        Some("Q1"),
        Some("Q2"),
        None,
        false,
        Some(sample_metadata("10.1/pending")),
    );
    let report = build_record_report(&pair.0, &pair.1);
    assert!(report.occurrence_waiting_on_reference);
    assert!(!report.create_occurrence);
    assert!(report.issues.iter().any(|i| i == OCCURRENCE_DEFERRED_ISSUE));
    let lines = generate_quickstatements(&vec![pair]);
    assert!(lines.iter().any(|l| l == "CREATE"));
    assert!(!lines.iter().any(|l| l.contains("P703")));
}

#[test]
fn test_build_record_reports_maps_all_records() {
    let records = vec![
        record(Some("Q1"), Some("Q2"), Some("Q3"), false, None),
        record(None, None, None, false, None),
    ];
    let reports = build_record_reports(&records);
    assert_eq!(reports.len(), 2);
    assert!(reports[0].create_occurrence);
    assert!(reports[1].create_chemical);
    assert_eq!(reports[0].chemical_qid.as_deref(), Some("Q1"));
    assert_eq!(reports[1].chemical_qid, None);
}
