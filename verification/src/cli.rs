//! Command-line options of the importer, and the exact grammar they are
//! parsed by: space-separated flags, each taking the following argument as
//! its value, unknown flags rejected.
use crate::text::{owned, str_eq, str_view_seq};
use vstd::prelude::*;

verus! {

/// How the finished batch leaves the program.
#[derive(Debug, Clone, Copy, PartialEq, Eq, Structural)]
pub enum OutputMode {
    /// Generate a QuickStatements V1 file.
    QuickStatements,
    /// Push data directly to the knowledge base (not implemented).
    DirectPush,
}

/// The parsed command line.
#[derive(Debug)]
pub struct Cli {
    /// Path of the input CSV file.
    pub input_file: String,
    /// CSV column for the chemical entity name.
    pub column_chemical_name: String,
    /// CSV column for the chemical structure.
    pub column_structure: String,
    /// CSV column for the taxon.
    pub column_taxon: String,
    /// CSV column for the reference DOI.
    pub column_doi: String,
    /// Output mode.
    pub mode: OutputMode,
    /// Path of the output batch file (required in QuickStatements mode).
    pub output_file: Option<String>,
}

/// The partially gathered options, in flag order: input file, the four
/// column overrides, the mode, the output file.
pub type CliAcc = (
    Option<Seq<char>>,
    Option<Seq<char>>,
    Option<Seq<char>>,
    Option<Seq<char>>,
    Option<Seq<char>>,
    Option<OutputMode>,
    Option<Seq<char>>,
);

/// Folds the arguments from position `i` into the gathered options: every
/// flag takes the next argument as its value, a later occurrence wins, and
/// an unknown flag, a missing value or a bad mode value rejects the line.
pub open spec fn spec_parse_args(args: Seq<Seq<char>>, i: int, acc: CliAcc) -> Option<CliAcc>
    recommends
        0 <= i,
    decreases args.len() - i when 0 <= i
{
    if i >= args.len() {
        Some(acc)
    } else {
        let a = args[i];
        if a == "-i"@ || a == "--input-file"@ {
            if i + 1 < args.len() {
                spec_parse_args(
                    args,
                    i + 2,
                    (Some(args[i + 1]), acc.1, acc.2, acc.3, acc.4, acc.5, acc.6),
                )
            } else {
                None
            }
        } else if a == "--column-chemical-name"@ {
            if i + 1 < args.len() {
                spec_parse_args(
                    args,
                    i + 2,
                    (acc.0, Some(args[i + 1]), acc.2, acc.3, acc.4, acc.5, acc.6),
                )
            } else {
                None
            }
        } else if a == "--column-structure"@ {
            if i + 1 < args.len() {
                spec_parse_args(
                    args,
                    i + 2,
                    (acc.0, acc.1, Some(args[i + 1]), acc.3, acc.4, acc.5, acc.6),
                )
            } else {
                None
            }
        } else if a == "--column-taxon"@ {
            if i + 1 < args.len() {
                spec_parse_args(
                    args,
                    i + 2,
                    (acc.0, acc.1, acc.2, Some(args[i + 1]), acc.4, acc.5, acc.6),
                )
            } else {
                None
            }
        } else if a == "--column-doi"@ {
            if i + 1 < args.len() {
                spec_parse_args(
                    args,
                    i + 2,
                    (acc.0, acc.1, acc.2, acc.3, Some(args[i + 1]), acc.5, acc.6),
                )
            } else {
                None
            }
        } else if a == "-m"@ || a == "--mode"@ {
            if i + 1 < args.len() {
                if args[i + 1] == "qs"@ {
                    spec_parse_args(
                        args,
                        i + 2,
                        (acc.0, acc.1, acc.2, acc.3, acc.4, Some(OutputMode::QuickStatements), acc.6),
                    )
                } else if args[i + 1] == "direct"@ {
                    spec_parse_args(
                        args,
                        i + 2,
                        (acc.0, acc.1, acc.2, acc.3, acc.4, Some(OutputMode::DirectPush), acc.6),
                    )
                } else {
                    None
                }
            } else {
                None
            }
        } else if a == "-o"@ || a == "--output-file"@ {
            if i + 1 < args.len() {
                spec_parse_args(
                    args,
                    i + 2,
                    (acc.0, acc.1, acc.2, acc.3, acc.4, acc.5, Some(args[i + 1])),
                )
            } else {
                None
            }
        } else {
            None
        }
    }
}

/// The options gathered from a whole command line (the first argument being
/// the program name).
pub open spec fn spec_parsed(args: Seq<Seq<char>>) -> Option<CliAcc> {
    spec_parse_args(args, 1, (None, None, None, None, None, None, None))
}

/// The mode in force: what was given, or the QuickStatements default.
pub open spec fn spec_mode_of(acc: CliAcc) -> OutputMode {
    match acc.5 {
        Some(m) => m,
        None => OutputMode::QuickStatements,
    }
}

/// Whether a command line is accepted: it folds cleanly, names an input
/// file, and names an output file whenever the mode is QuickStatements.
pub open spec fn spec_cli_accepts(args: Seq<Seq<char>>) -> bool {
    match spec_parsed(args) {
        None => false,
        Some(acc) => acc.0 is Some && !(spec_mode_of(acc) is QuickStatements && acc.6 is None),
    }
}

/// The parsed options faithfully reflect the command line, absent column
/// overrides falling back to their default header names.
pub open spec fn cli_matches(cli: Cli, args: Seq<Seq<char>>) -> bool {
    let acc = spec_parsed(args).unwrap();
    &&& cli.input_file@ == acc.0.unwrap()
    &&& cli.column_chemical_name@ == (match acc.1 {
        Some(v) => v,
        None => "chemical_entity_name"@,
    })
    &&& cli.column_structure@ == (match acc.2 {
        Some(v) => v,
        None => "chemical_entity_smiles"@,
    })
    &&& cli.column_taxon@ == (match acc.3 {
        Some(v) => v,
        None => "taxon_name"@,
    })
    &&& cli.column_doi@ == (match acc.4 {
        Some(v) => v,
        None => "reference_doi"@,
    })
    &&& cli.mode == spec_mode_of(acc)
    &&& (cli.output_file is Some <==> acc.6 is Some)
    &&& (acc.6 is Some ==> cli.output_file.unwrap()@ == acc.6.unwrap())
}

/// The gathered text of an optional argument.
pub open spec fn opt_view(o: Option<String>) -> Option<Seq<char>> {
    match o {
        Some(s) => Some(s@),
        None => None,
    }
}

impl Cli {
    /// Parses a command line, or says what is wrong with it.
    pub fn try_parse_from(args: &Vec<String>) -> (r: Result<Cli, String>)
        ensures
            r is Ok <==> spec_cli_accepts(str_view_seq(args@)),
            r is Ok ==> cli_matches(r.unwrap(), str_view_seq(args@)),
    {
        let ghost av = str_view_seq(args@);
        let mut input: Option<String> = None;
        let mut col_chemical: Option<String> = None;
        let mut col_structure: Option<String> = None;
        let mut col_taxon: Option<String> = None;
        let mut col_doi: Option<String> = None;
        let mut mode: Option<OutputMode> = None;
        let mut output: Option<String> = None;
        let mut i: usize = 1;
        while i < args.len()
            invariant
                1 <= i,
                i <= args@.len() || i == 1,
                av == str_view_seq(args@),
                av.len() == args@.len(),
                forall|j: int| 0 <= j < av.len() ==> av[j] == args@[j]@,
                spec_parsed(av) == spec_parse_args(
                    av,
                    i as int,
                    (
                        opt_view(input),
                        opt_view(col_chemical),
                        opt_view(col_structure),
                        opt_view(col_taxon),
                        opt_view(col_doi),
                        mode,
                        opt_view(output),
                    ),
                ),
            decreases args@.len() - i,
        {
            let a = args[i].as_str();
            if str_eq(a, "-i") || str_eq(a, "--input-file") {
                if i + 1 < args.len() {
                    input = Some(owned(args[i + 1].as_str()));
                    i = i + 2;
                } else {
                    return Err(owned("a value is required for '--input-file <FILE>'"));
                }
            } else if str_eq(a, "--column-chemical-name") {
                if i + 1 < args.len() {
                    col_chemical = Some(owned(args[i + 1].as_str()));
                    i = i + 2;
                } else {
                    return Err(owned("a value is required for '--column-chemical-name <COLUMN>'"));
                }
            } else if str_eq(a, "--column-structure") {
                if i + 1 < args.len() {
                    col_structure = Some(owned(args[i + 1].as_str()));
                    i = i + 2;
                } else {
                    return Err(owned("a value is required for '--column-structure <COLUMN>'"));
                }
            } else if str_eq(a, "--column-taxon") {
                if i + 1 < args.len() {
                    col_taxon = Some(owned(args[i + 1].as_str()));
                    i = i + 2;
                } else {
                    return Err(owned("a value is required for '--column-taxon <COLUMN>'"));
                }
            } else if str_eq(a, "--column-doi") {
                if i + 1 < args.len() {
                    col_doi = Some(owned(args[i + 1].as_str()));
                    i = i + 2;
                } else {
                    return Err(owned("a value is required for '--column-doi <COLUMN>'"));
                }
            } else if str_eq(a, "-m") || str_eq(a, "--mode") {
                if i + 1 < args.len() {
                    if str_eq(args[i + 1].as_str(), "qs") {
                        mode = Some(OutputMode::QuickStatements);
                    } else if str_eq(args[i + 1].as_str(), "direct") {
                        mode = Some(OutputMode::DirectPush);
                    } else {
                        return Err(owned("invalid value for '--mode <MODE>': expected qs or direct"));
                    }
                    i = i + 2;
                } else {
                    return Err(owned("a value is required for '--mode <MODE>'"));
                }
            } else if str_eq(a, "-o") || str_eq(a, "--output-file") {
                if i + 1 < args.len() {
                    output = Some(owned(args[i + 1].as_str()));
                    i = i + 2;
                } else {
                    return Err(owned("a value is required for '--output-file <FILE>'"));
                }
            } else {
                return Err(owned("unexpected argument"));
            }
        }
        let ghost acc: CliAcc = (
            opt_view(input),
            opt_view(col_chemical),
            opt_view(col_structure),
            opt_view(col_taxon),
            opt_view(col_doi),
            mode,
            opt_view(output),
        );
        proof {
            assert(spec_parsed(av) == Some(acc));
        }
        let input_file = match input {
            Some(v) => v,
            None => {
                return Err(owned("the following required arguments were not provided: --input-file <FILE>"));
            },
        };
        let mode_val = match mode {
            Some(m) => m,
            None => OutputMode::QuickStatements,
        };
        let qs_mode = match mode_val {
            OutputMode::QuickStatements => true,
            OutputMode::DirectPush => false,
        };
        if qs_mode && output.is_none() {
            return Err(owned("an output file is required when the mode is qs"));
        }
        let column_chemical_name = match col_chemical {
            Some(v) => v,
            None => owned("chemical_entity_name"),
        };
        let column_structure = match col_structure {
            Some(v) => v,
            None => owned("chemical_entity_smiles"),
        };
        let column_taxon = match col_taxon {
            Some(v) => v,
            None => owned("taxon_name"),
        };
        let column_doi = match col_doi {
            Some(v) => v,
            None => owned("reference_doi"),
        };
        Ok(
            Cli {
                input_file,
                column_chemical_name,
                column_structure,
                column_taxon,
                column_doi,
                mode: mode_val,
                output_file: output,
            },
        )
    }

    /// Parses a command line that is known to be acceptable.
    pub fn parse_from(args: &Vec<String>) -> (cli: Cli)
        requires
            spec_cli_accepts(str_view_seq(args@)),
        ensures
            cli_matches(cli, str_view_seq(args@)),
    {
        match Self::try_parse_from(args) {
            Ok(cli) => cli,
            Err(_) => unreached(),
        }
    }
}

} // verus!
