use lotus_o3::cache::{CacheNamespace, IdentifierCache};
use lotus_o3::chemical_entity::structure::validate_smiles_pair;
use lotus_o3::error::CrateError;
use lotus_o3::reference::{
    build_reference_metadata, format_retrieved_date, language_code_to_qid, map_work_type_to_qid,
    normalize_language_code, CalendarDate, CrossrefAuthor, CrossrefWork, ReferenceDate,
};
use lotus_o3::report::{build_qs_link_path, build_report_path, quickstatements_link, status_report_rows, build_record_reports};
use lotus_o3::wikidata::checker::{
    doi_candidates, extract_qid, SparqlBinding, SparqlResponse, SparqlRow,
};
use lotus_o3::text::contains_str;
use lotus_o3::wikidata::writer::escape_literal;

#[test]
fn test_quickstatements_time_day_precision() {
    let date = ReferenceDate {
        year: 2012,
        month: Some(3),
        day: Some(21),
    };
    assert_eq!(date.precision(), 11);
    assert_eq!(date.to_quickstatements_time(), "+2012-03-21T00:00:00Z/11");
}

#[test]
fn test_quickstatements_time_month_precision() {
    let date = ReferenceDate {
        year: 1999,
        month: Some(11),
        day: None,
    };
    assert_eq!(date.precision(), 10);
    assert_eq!(date.to_quickstatements_time(), "+1999-11-01T00:00:00Z/10");
}

#[test]
fn test_quickstatements_time_year_precision() {
    let date = ReferenceDate {
        year: 850,
        month: None,
        day: None,
    };
    assert_eq!(date.precision(), 9);
    assert_eq!(date.to_quickstatements_time(), "+0850-01-01T00:00:00Z/9");
}

#[test]
fn test_date_from_parts() {
    assert_eq!(ReferenceDate::from_parts(&vec![]), None);
    let d = ReferenceDate::from_parts(&vec![2020, 5]).unwrap();
    assert_eq!(d.year, 2020);
    assert_eq!(d.month, Some(5));
    assert_eq!(d.day, None);
}

#[test]
fn test_format_retrieved_date() {
    let date = CalendarDate {
        year: 2025,
        month: 12,
        day: 5,
    };
    assert_eq!(format_retrieved_date(&date), "+2025-12-05T00:00:00Z/11");
}

#[test]
fn test_escape_literal() {
    assert_eq!(escape_literal("plain"), "plain");
    assert_eq!(escape_literal(r#"a\b"c"#), r#"a\\b\"c"#);
    assert_eq!(escape_literal("line\nbreak"), "line break");
    assert_eq!(escape_literal("  padded  "), "padded");
}

#[test]
fn test_normalize_language_code() {
    assert_eq!(normalize_language_code(" EN-US "), Some("en".to_string()));
    assert_eq!(normalize_language_code("fr"), Some("fr".to_string()));
    assert_eq!(normalize_language_code("   "), None);
}

#[test]
fn test_language_code_to_qid() {
    assert_eq!(language_code_to_qid("en"), Some("Q1860"));
    assert_eq!(language_code_to_qid("pl"), Some("Q809"));
    assert_eq!(language_code_to_qid("tlh"), None);
}

#[test]
fn test_map_work_type_to_qid() {
    assert_eq!(map_work_type_to_qid(Some("journal-article")), "Q13442814");
    assert_eq!(map_work_type_to_qid(Some("book")), "Q571");
    assert_eq!(map_work_type_to_qid(Some("thesis")), "Q1266946");
    assert_eq!(map_work_type_to_qid(Some("sky-writing")), "Q13442814");
    assert_eq!(map_work_type_to_qid(None), "Q13442814");
}

#[test]
fn test_validate_smiles_pair_accepts_valid() {
    let r = validate_smiles_pair(
        Some("C1=CC=CC=C1".to_string()),
        Some("C/C=C/C".to_string()),
    )
    .unwrap();
    assert_eq!(r.0.as_deref(), Some("C1=CC=CC=C1"));
    assert_eq!(r.1.as_deref(), Some("C/C=C/C"));
}

#[test]
fn test_validate_smiles_pair_rejects_bad_canonical() {
    let r = validate_smiles_pair(Some("C C".to_string()), None);
    assert!(
        matches!(r, Err(CrateError::InvalidFormat { column, .. }) if column == "canonical_smiles")
    );
}

#[test]
fn test_validate_smiles_pair_rejects_isomeric_without_stereo() {
    let r = validate_smiles_pair(None, Some("CCC".to_string()));
    assert!(
        matches!(r, Err(CrateError::InvalidFormat { column, .. }) if column == "isomeric_smiles")
    );
}

#[test]
fn test_doi_candidates_case_variants() {
    let c = doi_candidates("  10.1000/AbC  ");
    assert_eq!(c, vec!["10.1000/AbC", "10.1000/ABC", "10.1000/abc"]);
}

#[test]
fn test_doi_candidates_no_duplicates() {
    let c = doi_candidates("10.1000/123");
    assert_eq!(c, vec!["10.1000/123"]);
}

#[test]
fn test_extract_qid_from_uri() {
    let response = SparqlResponse {
        results: Some(vec![SparqlRow {
            entries: vec![(
                "item".to_string(),
                SparqlBinding {
                    datatype: "uri".to_string(),
                    value: "http://www.wikidata.org/entity/Q42".to_string(),
                },
            )],
        }]),
        boolean: None,
    };
    assert_eq!(extract_qid(&response, "item"), Some("Q42".to_string()));
}

#[test]
fn test_extract_qid_rejects_non_uri() {
    let response = SparqlResponse {
        results: Some(vec![SparqlRow {
            entries: vec![(
                "item".to_string(),
                SparqlBinding {
                    datatype: "literal".to_string(),
                    value: "Q42".to_string(),
                },
            )],
        }]),
        boolean: None,
    };
    assert_eq!(extract_qid(&response, "item"), None);
}

#[test]
fn test_extract_qid_empty_results() {
    let response = SparqlResponse {
        results: Some(vec![]),
        boolean: None,
    };
    assert_eq!(extract_qid(&response, "item"), None);
}

#[test]
fn test_build_reference_metadata_fields() {
    let work = CrossrefWork {
        title: Some(vec!["   ".to_string(), "Real Title".to_string()]),
        work_type: Some("journal-article".to_string()),
        language: Some("EN-US".to_string()),
        author: Some(vec![
            CrossrefAuthor {
                given: Some("Jane".to_string()),
                family: Some("Doe".to_string()),
                name: None,
            },
            CrossrefAuthor {
                given: None,
                family: None,
                name: None,
            },
            CrossrefAuthor {
                given: None,
                family: None,
                name: Some("Acme Consortium".to_string()),
            },
        ]),
        issued: Some(vec![vec![2020, 5]]),
        container_title: Some(vec!["Journal of Tests".to_string()]),
        volume: Some("19".to_string()),
        issue: None,
        issn_list: Some(vec![" 1234-5678 ".to_string()]),
    };
    let retrieved = CalendarDate {
        year: 2025,
        month: 1,
        day: 2,
    };
    let m = build_reference_metadata(" 10.5772/abc ", &work, &retrieved);
    assert_eq!(m.doi, "10.5772/ABC");
    assert_eq!(m.title, "Real Title");
    assert_eq!(m.title_language.as_deref(), Some("en"));
    assert_eq!(m.language_qid.as_deref(), Some("Q1860"));
    assert_eq!(m.entity_type_qid, "Q13442814");
    let date = m.publication_date.unwrap();
    assert_eq!(date.year, 2020);
    assert_eq!(date.month, Some(5));
    assert_eq!(m.volume.as_deref(), Some("19"));
    assert_eq!(m.issue, None);
    assert_eq!(m.container_title.as_deref(), Some("Journal of Tests"));
    assert_eq!(m.issn.as_deref(), Some("1234-5678"));
    assert_eq!(m.journal_qid, None);
    assert_eq!(m.authors.len(), 2);
    assert_eq!(m.authors[0].full_name, "Jane Doe");
    assert_eq!(m.authors[0].ordinal, 1);
    assert_eq!(m.authors[1].full_name, "Acme Consortium");
    assert_eq!(m.authors[1].ordinal, 2);
    assert_eq!(m.retrieved_on, retrieved);
}

#[test]
fn test_build_reference_metadata_title_falls_back_to_doi() {
    let work = CrossrefWork {
        title: None,
        work_type: None,
        language: None,
        author: None,
        issued: None,
        container_title: None,
        volume: None,
        issue: None,
        issn_list: None,
    };
    let retrieved = CalendarDate {
        year: 2025,
        month: 1,
        day: 2,
    };
    let m = build_reference_metadata("10.1/fallback", &work, &retrieved);
    assert_eq!(m.title, "10.1/fallback");
    assert_eq!(m.entity_type_qid, "Q13442814");
    assert!(m.authors.is_empty());
}

#[test]
fn test_identifier_cache_roundtrip() {
    let mut cache = IdentifierCache::new();
    assert_eq!(cache.lookup(CacheNamespace::ReferenceByDoi, "10.1/a"), None);
    cache.store(
        CacheNamespace::ReferenceByDoi,
        "10.1/a".to_string(),
        Some("Q5".to_string()),
    );
    assert_eq!(
        cache.lookup(CacheNamespace::ReferenceByDoi, "10.1/a"),
        Some(Some("Q5".to_string()))
    );
    // A memoized negative answer is different from a miss.
    cache.store(CacheNamespace::JournalByIssn, "1234-5678".to_string(), None);
    assert_eq!(
        cache.lookup(CacheNamespace::JournalByIssn, "1234-5678"),
        Some(None)
    );
    // Namespaces are separate.
    assert_eq!(cache.lookup(CacheNamespace::TaxonByName, "10.1/a"), None);
    // A later store shadows an earlier one.
    cache.store(
        CacheNamespace::ReferenceByDoi,
        "10.1/a".to_string(),
        Some("Q6".to_string()),
    );
    assert_eq!(
        cache.lookup(CacheNamespace::ReferenceByDoi, "10.1/a"),
        Some(Some("Q6".to_string()))
    );
}

#[test]
fn test_build_report_paths() {
    assert_eq!(build_report_path("out/batch.qs"), "out/batch_status.tsv");
    assert_eq!(build_report_path("batch.qs"), "batch_status.tsv");
    assert_eq!(build_qs_link_path("out/batch.qs"), "out/batch_qs_url.txt");
}

#[test]
fn test_quickstatements_link_encoding() {
    let link = quickstatements_link("Q1\tP703\tQ2\nCREATE\r\n");
    assert_eq!(
        link,
        "https://quickstatements.toolforge.org/#/v1=Q1%7CP703%7CQ2%7C%7CCREATE%7C%7C"
    );
}

#[test]
fn test_status_report_rows_shape() {
    let records = vec![(
        lotus_o3::enrichment::EnrichedData {
            chemical_entity_name: "TestChem".to_string(),
            input_smiles: "C".to_string(),
            sanitized_smiles: "C".to_string(),
            taxon_name: "TestTaxon".to_string(),
            reference_doi: "10.1/test".to_string(),
            canonical_smiles: None,
            isomeric_smiles: None,
            inchi: None,
            inchikey: None,
            molecular_formula: None,
            other_descriptors: None,
        },
        lotus_o3::wikidata::checker::WikidataInfo {
            chemical_qid: Some("Q1".to_string()),
            taxon_qid: None,
            reference_qid: Some("Q3".to_string()),
            occurrence_exists: false,
            reference_metadata: None,
        },
    )];
    let reports = build_record_reports(&records);
    let rows = status_report_rows(&reports);
    assert_eq!(rows.len(), 2);
    assert_eq!(rows[0][0], "chemical_entity_name");
    assert_eq!(rows[0][11], "issues");
    assert_eq!(rows[1][0], "TestChem");
    assert_eq!(rows[1][4], "Q1");
    assert_eq!(rows[1][5], "");
    assert_eq!(rows[1][7], "no");
    assert!(rows[1][11].contains("Taxon entity not found"));
}

#[test]
fn test_contains_str() {
    assert!(contains_str("Error reading SMILES string: C1", "Error reading SMILES string"));
    assert!(!contains_str("all good", "Error reading SMILES string"));
    assert!(contains_str("abc", ""));
    assert!(!contains_str("ab", "abc"));
}
