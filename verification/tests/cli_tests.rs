use lotus_o3::cli::{Cli, OutputMode};

fn args_of(v: &[&str]) -> Vec<String> {
    v.iter().map(|s| s.to_string()).collect()
}

#[test]
fn test_cli_qs_mode() {
    let args = args_of(&["lotus-o3", "-i", "input.csv", "-m", "qs", "-o", "output.qs"]);
    let cli = Cli::parse_from(&args);
    assert_eq!(cli.input_file, "input.csv");
    assert_eq!(cli.mode, OutputMode::QuickStatements);
    assert_eq!(cli.output_file, Some("output.qs".to_string()));
}

#[test]
fn test_cli_qs_mode_default() {
    let args = args_of(&["lotus-o3", "-i", "input.csv", "-o", "output.qs"]);
    let cli = Cli::parse_from(&args);
    assert_eq!(cli.input_file, "input.csv");
    assert_eq!(cli.mode, OutputMode::QuickStatements);
    assert_eq!(cli.output_file, Some("output.qs".to_string()));
}

#[test]
fn test_cli_direct_mode() {
    let args = args_of(&["lotus-o3", "-i", "input.csv", "-m", "direct"]);
    let cli = Cli::parse_from(&args);
    assert_eq!(cli.input_file, "input.csv");
    assert_eq!(cli.mode, OutputMode::DirectPush);
    assert!(cli.output_file.is_none());
}

#[test]
fn test_cli_qs_mode_missing_output() {
    let args = args_of(&["lotus-o3", "-i", "input.csv", "-m", "qs"]);
    let result = Cli::try_parse_from(&args);
    assert!(result.is_err());
}

#[test]
fn test_cli_column_overrides() {
    let args = args_of(&[
        "lotus-o3",
        "-i",
        "rows.csv",
        "-o",
        "out.qs",
        "--column-chemical-name",
        "name",
        "--column-structure",
        "structure",
        "--column-taxon",
        "taxa",
        "--column-doi",
        "doi",
    ]);
    let cli = Cli::parse_from(&args);
    assert_eq!(cli.column_chemical_name, "name");
    assert_eq!(cli.column_structure, "structure");
    assert_eq!(cli.column_taxon, "taxa");
    assert_eq!(cli.column_doi, "doi");
}

#[test]
fn test_cli_default_columns() {
    let args = args_of(&["lotus-o3", "-i", "rows.csv", "-o", "out.qs"]);
    let cli = Cli::parse_from(&args);
    assert_eq!(cli.column_chemical_name, "chemical_entity_name");
    assert_eq!(cli.column_structure, "chemical_entity_smiles");
    assert_eq!(cli.column_taxon, "taxon_name");
    assert_eq!(cli.column_doi, "reference_doi");
}

#[test]
fn test_cli_rejects_unknown_flag() {
    let args = args_of(&["lotus-o3", "-i", "input.csv", "-o", "out.qs", "--frobnicate"]);
    assert!(Cli::try_parse_from(&args).is_err());
}

#[test]
fn test_cli_rejects_bad_mode() {
    let args = args_of(&["lotus-o3", "-i", "input.csv", "-m", "telepathy"]);
    assert!(Cli::try_parse_from(&args).is_err());
}

#[test]
fn test_cli_rejects_missing_input() {
    let args = args_of(&["lotus-o3", "-o", "out.qs"]);
    assert!(Cli::try_parse_from(&args).is_err());
}
