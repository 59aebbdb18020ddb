use lotus_o3::taxon::normalizer::normalize_taxon_name;

#[test]
fn trims_and_truncates() {
    assert_eq!(
        normalize_taxon_name("Vernonanthura patens (Kunth) H.Rob."),
        "Vernonanthura patens"
    );
    assert_eq!(normalize_taxon_name("Single"), "Single");
    assert_eq!(
        normalize_taxon_name("  Leading  and trailing  "),
        "Leading and"
    );
}
