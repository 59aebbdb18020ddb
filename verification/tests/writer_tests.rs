use lotus_o3::enrichment::EnrichedData;
use lotus_o3::reference::{CalendarDate, ReferenceAuthor, ReferenceDate, ReferenceMetadata};
use lotus_o3::wikidata::checker::WikidataInfo;
use lotus_o3::wikidata::writer::generate_quickstatements;

fn create_test_data(
    chem_qid: Option<&str>,
    tax_qid: Option<&str>,
    ref_qid: Option<&str>,
    occurrence_exists: bool,
) -> (EnrichedData, WikidataInfo) {
    (
        EnrichedData {
            chemical_entity_name: "TestChem".to_string(),
            input_smiles: "C".to_string(),
            sanitized_smiles: "C".to_string(),
            taxon_name: "TestTaxon".to_string(),
            reference_doi: "10.1/test".to_string(),
            canonical_smiles: Some("C".to_string()),
            isomeric_smiles: None,
            inchi: Some("InChI=1S/CH4/h1H4".to_string()),
            inchikey: Some("VNWKTOKETHGBQD-UHFFFAOYSA-N".to_string()),
            molecular_formula: Some("CH4".to_string()),
            other_descriptors: None,
        },
        WikidataInfo {
            chemical_qid: chem_qid.map(String::from),
            taxon_qid: tax_qid.map(String::from),
            reference_qid: ref_qid.map(String::from),
            occurrence_exists,
            reference_metadata: None,
        },
    )
}

#[test]
fn test_generate_qs_create_item_and_occurrence() {
    let records = vec![create_test_data(None, Some("Q2"), Some("Q3"), false)];
    let output_lines = generate_quickstatements(&records);
    let output = output_lines.join("\n");
    let lines: Vec<&str> = output.trim().split('\n').collect();
    println!("Generated QuickStatements:\n{}", output);

    assert!(lines.contains(&"CREATE"));
    // Use raw strings r#"..."# to avoid issues with escapes
    assert!(lines.contains(&r#"LAST	Len	"TestChem""#));
    assert!(lines.contains(&r#"LAST	Den	"type of chemical entity""#));
    assert!(lines.contains(&r#"LAST	P31	Q113145171"#));
    assert!(lines.contains(&r#"LAST	P233	"C""#)); // Canonical SMILES
    assert!(lines.contains(&r#"LAST	P234	"InChI=1S/CH4/h1H4""#)); // InChI
    assert!(lines.contains(&r#"LAST	P235	"VNWKTOKETHGBQD-UHFFFAOYSA-N""#)); // InChIKey
    assert!(lines.contains(&r#"LAST	P274	"CH4""#)); // Formula
    // Check occurrence statement using the temporary ID
    assert!(lines.contains(&r#"LAST	P703	Q2	S248	Q3"#));
}

#[test]
fn test_generate_qs_add_occurrence_only() {
    let records = vec![create_test_data(Some("Q1"), Some("Q2"), Some("Q3"), false)];
    let output_lines = generate_quickstatements(&records);
    let output = output_lines.join("\n");
    let lines: Vec<&str> = output.trim().split('\n').collect();

    assert_eq!(lines.len(), 1);
    assert_eq!(lines[0], r#"Q1	P703	Q2	S248	Q3"#);
}

#[test]
fn test_generate_qs_skip_existing_occurrence() {
    let records = vec![create_test_data(Some("Q1"), Some("Q2"), Some("Q3"), true)];
    let output_lines = generate_quickstatements(&records);
    let output = output_lines.join("\n");
    assert!(output.trim().is_empty());
}

#[test]
fn test_generate_qs_skip_missing_taxon_qid() {
    // Chemical exists, Taxon doesn't, Ref exists, Occurrence doesn't
    let records = vec![create_test_data(Some("Q1"), None, Some("Q3"), false)];
    let output_lines = generate_quickstatements(&records);
    let output = output_lines.join("\n");
    // No occurrence command should be generated
    assert!(output.trim().is_empty());
}

#[test]
fn test_generate_qs_multiple_records() {
    let records = vec![
        create_test_data(None, Some("Q2"), Some("Q3"), false), // Create Chem1, Add Occ1
        create_test_data(Some("Q4"), Some("Q5"), Some("Q6"), false), // Add Occ2
        create_test_data(Some("Q7"), Some("Q8"), Some("Q9"), true), // Skip Occ3
    ];
    let output_lines = generate_quickstatements(&records);
    let output = output_lines.join("\n");
    let lines: Vec<&str> = output.trim().split('\n').collect();
    println!("Generated QuickStatements:\n{}", output);

    // Check commands for first record (creation + occurrence)
    assert!(lines.contains(&"CREATE"));
    assert!(lines.contains(&r#"LAST	Len	"TestChem""#));
    assert!(lines.contains(&r#"LAST	P703	Q2	S248	Q3"#));
    // Check command for second record (occurrence only)
    assert!(lines.contains(&r#"Q4	P703	Q5	S248	Q6"#));
    // Check that nothing was generated for the third record
    assert!(!lines.iter().any(|&l| l.starts_with("Q7\t")));
    assert!(lines.len() > 2); // Ensure multiple commands were generated
}

#[test]
fn test_generate_reference_creation_when_missing() {
    let mut enriched = create_test_data(Some("Q1"), Some("Q2"), None, false);
    enriched.1.reference_metadata = Some(ReferenceMetadata {
        doi: "10.5772/28961".to_string(),
        title: "Example Title".to_string(),
        title_language: Some("en".to_string()),
        language_qid: Some("Q1860".to_string()),
        entity_type_qid: "Q13442814".to_string(),
        publication_date: Some(ReferenceDate {
            year: 2012,
            month: Some(3),
            day: Some(21),
        }),
        volume: Some("19".to_string()),
        issue: Some("3".to_string()),
        container_title: Some("Example Journal".to_string()),
        issn: Some("1234-5678".to_string()),
        journal_qid: Some("Q27725749".to_string()),
        authors: vec![ReferenceAuthor {
            full_name: "First Author".to_string(),
            ordinal: 1,
        }],
        retrieved_on: CalendarDate {
            year: 2025,
            month: 12,
            day: 5,
        },
    });

    let records = vec![enriched];
    let output_lines = generate_quickstatements(&records);
    let output = output_lines.join("\n");
    assert!(output.contains("P356"));
    assert!(output.contains("P2093"));
    assert!(output.contains("Q13442814"));
    assert!(output.contains("P1433"));
}
