use lotus_o3::csv_handler::{load_and_validate_csv, ColumnConfig};
use lotus_o3::error::CrateError;
use lotus_o3::taxon::normalizer::normalize_taxon_name;

// A CSV file written line by line ends in a newline; the fixtures carry it.
fn csv_content(content: &str) -> String {
    format!("{}\n", content)
}

#[test]
fn test_load_valid_csv() {
    let content = csv_content(
        "chemical_entity_name,chemical_entity_smiles,taxon_name,reference_doi\nCompoundA,C1=CC=CC=C1,TaxonX species extra , 10.1000/test1 \nCompoundB,C,TaxonY,10.1000/test2",
    );
    let records = load_and_validate_csv(&content, &ColumnConfig::default()).unwrap();
    assert_eq!(records.len(), 2);
    assert_eq!(records[0].chemical_entity_name, "CompoundA");
    assert_eq!(records[0].taxon_name, "TaxonX species");
    assert_eq!(records[0].reference_doi, "10.1000/test1");
    assert_eq!(records[1].taxon_name, "TaxonY");
}

#[test]
fn test_missing_header() {
    let content = csv_content(
        "chemical_entity_name,chemical_entity_smiles,taxon_name\nCompoundA,C1=CC=CC=C1,TaxonX",
    );
    let result = load_and_validate_csv(&content, &ColumnConfig::default());
    assert!(matches!(result, Err(CrateError::MissingHeader(h)) if h.contains("reference_doi")));
}

#[test]
fn test_missing_value() {
    let content = csv_content(
        "chemical_entity_name,chemical_entity_smiles,taxon_name,reference_doi\nCompoundA,,TaxonX,10.1000/test1",
    );
    let result = load_and_validate_csv(&content, &ColumnConfig::default());
    assert!(
        matches!(result, Err(CrateError::MissingValue { column, row }) if column == "chemical_entity_smiles" && row == 2)
    );
}

#[test]
fn test_empty_csv() {
    let content = csv_content("chemical_entity_name,chemical_entity_smiles,taxon_name,reference_doi");
    let records = load_and_validate_csv(&content, &ColumnConfig::default()).unwrap();
    assert_eq!(records.len(), 0);
}

#[test]
fn test_malformed_csv() {
    // Missing DOI field
    let content = csv_content(
        "chemical_entity_name,chemical_entity_smiles,taxon_name,reference_doi\nCompoundA,C1,TaxonX",
    );
    let result = load_and_validate_csv(&content, &ColumnConfig::default());
    assert!(matches!(result, Err(CrateError::CsvError(_))));
}

#[test]
fn test_normalize_taxon_name() {
    assert_eq!(
        normalize_taxon_name("Vernonanthura patens (Kunth) H.Rob."),
        "Vernonanthura patens"
    );
    assert_eq!(normalize_taxon_name("Single"), "Single");
    assert_eq!(
        normalize_taxon_name("  Leading  and trailing  "),
        "Leading and"
    );
}

#[test]
fn test_trim_fields() {
    let content = csv_content(
        " CompoundA , C1=CC=CC=C1 , TaxonX extra info , 10.5772/28961 \r"
    );
    let content = format!(
        "chemical_entity_name,chemical_entity_smiles,taxon_name,reference_doi\n{}",
        content
    );
    let records = load_and_validate_csv(&content, &ColumnConfig::default()).unwrap();
    assert_eq!(records[0].chemical_entity_name, "CompoundA");
    assert_eq!(records[0].chemical_entity_smiles, "C1=CC=CC=C1");
    assert_eq!(records[0].taxon_name, "TaxonX extra");
    assert_eq!(records[0].reference_doi, "10.5772/28961");
}

#[test]
fn test_custom_column_mapping() {
    let content = csv_content(
        "name,structure,taxa,doi\nCompoundA,C1=CC=CC=C1,Vernonanthura patens ,10.1000/test1",
    );
    let config = ColumnConfig {
        chemical_name: "name".to_string(),
        structure: "structure".to_string(),
        taxon: "taxa".to_string(),
        doi: "doi".to_string(),
    };
    let records = load_and_validate_csv(&content, &config).unwrap();
    assert_eq!(records.len(), 1);
    assert_eq!(records[0].chemical_entity_name, "CompoundA");
    assert_eq!(records[0].taxon_name, "Vernonanthura patens");
    assert_eq!(records[0].reference_doi, "10.1000/test1");
}
