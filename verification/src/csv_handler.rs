//! Loading and validation of the tabular input: column mapping, trimming,
//! required-value checks and taxon normalization.  Parsing the CSV text
//! itself is the csv crate's work, behind a trusted wrapper; everything done
//! with the parsed cells is verified.
use crate::error::CrateError;
use crate::taxon::normalizer::{normalize_taxon_name, normalize_taxon_spec};
use crate::text::{owned, str_eq, str_view_seq, table_views, trim_owned, trim_spec};
use vstd::prelude::*;

verus! {

/// One validated row of the input file.
#[derive(Debug)]
pub struct InputRecord {
    pub chemical_entity_name: String,
    pub chemical_entity_smiles: String,
    pub taxon_name: String,
    pub reference_doi: String,
}

/// The header names the four required columns are looked up under.
#[derive(Debug, Clone)]
pub struct ColumnConfig {
    pub chemical_name: String,
    pub structure: String,
    pub taxon: String,
    pub doi: String,
}

/// The four roles a required column can play.
#[derive(Debug, Clone, Copy, PartialEq, Eq, Structural)]
pub enum ColumnRole {
    ChemicalName,
    Structure,
    Taxon,
    Doi,
}

impl ColumnConfig {
    /// The configured header name for a role.
    pub open spec fn spec_name_for(&self, role: ColumnRole) -> Seq<char> {
        match role {
            ColumnRole::ChemicalName => self.chemical_name@,
            ColumnRole::Structure => self.structure@,
            ColumnRole::Taxon => self.taxon@,
            ColumnRole::Doi => self.doi@,
        }
    }

    /// The default column mapping.
    pub fn default() -> (c: Self)
        ensures
            c.chemical_name@ == "chemical_entity_name"@,
            c.structure@ == "chemical_entity_smiles"@,
            c.taxon@ == "taxon_name"@,
            c.doi@ == "reference_doi"@,
    {
        Self {
            chemical_name: owned("chemical_entity_name"),
            structure: owned("chemical_entity_smiles"),
            taxon: owned("taxon_name"),
            doi: owned("reference_doi"),
        }
    }

    /// The configured header name for a role.
    pub fn name_for(&self, role: ColumnRole) -> (r: &str)
        ensures
            r@ == self.spec_name_for(role),
    {
        match role {
            ColumnRole::ChemicalName => self.chemical_name.as_str(),
            ColumnRole::Structure => self.structure.as_str(),
            ColumnRole::Taxon => self.taxon.as_str(),
            ColumnRole::Doi => self.doi.as_str(),
        }
    }
}

/// The header a role maps to when nothing is configured.
pub open spec fn spec_role_default_header(role: ColumnRole) -> Seq<char> {
    match role {
        ColumnRole::ChemicalName => "chemical_entity_name"@,
        ColumnRole::Structure => "chemical_entity_smiles"@,
        ColumnRole::Taxon => "taxon_name"@,
        ColumnRole::Doi => "reference_doi"@,
    }
}

fn role_default_header(role: ColumnRole) -> (r: &'static str)
    ensures
        r@ == spec_role_default_header(role),
{
    match role {
        ColumnRole::ChemicalName => "chemical_entity_name",
        ColumnRole::Structure => "chemical_entity_smiles",
        ColumnRole::Taxon => "taxon_name",
        ColumnRole::Doi => "reference_doi",
    }
}

/// The command-line flag that overrides a role's column.
pub open spec fn spec_role_cli_flag(role: ColumnRole) -> Seq<char> {
    match role {
        ColumnRole::ChemicalName => "--column-chemical-name"@,
        ColumnRole::Structure => "--column-structure"@,
        ColumnRole::Taxon => "--column-taxon"@,
        ColumnRole::Doi => "--column-doi"@,
    }
}

fn role_cli_flag(role: ColumnRole) -> (r: &'static str)
    ensures
        r@ == spec_role_cli_flag(role),
{
    match role {
        ColumnRole::ChemicalName => "--column-chemical-name",
        ColumnRole::Structure => "--column-structure",
        ColumnRole::Taxon => "--column-taxon",
        ColumnRole::Doi => "--column-doi",
    }
}

/// What a role's column holds, for error messages.
pub open spec fn spec_role_description(role: ColumnRole) -> Seq<char> {
    match role {
        ColumnRole::ChemicalName => "Chemical entity label (used for item creation)"@,
        ColumnRole::Structure => "Chemical structure expressed as SMILES"@,
        ColumnRole::Taxon => "Taxon label used for occurrence statements"@,
        ColumnRole::Doi => "Reference DOI backing the occurrence"@,
    }
}

fn role_description(role: ColumnRole) -> (r: &'static str)
    ensures
        r@ == spec_role_description(role),
{
    match role {
        ColumnRole::ChemicalName => "Chemical entity label (used for item creation)",
        ColumnRole::Structure => "Chemical structure expressed as SMILES",
        ColumnRole::Taxon => "Taxon label used for occurrence statements",
        ColumnRole::Doi => "Reference DOI backing the occurrence",
    }
}

/// One explanatory line of the missing-header message, for one role.
pub open spec fn spec_requirement_line(cfg: ColumnConfig, role: ColumnRole) -> Seq<char> {
    "  - "@ + cfg.spec_name_for(role) + " (default: "@ + spec_role_default_header(role) + ") – "@
        + spec_role_description(role) + " [override with "@ + spec_role_cli_flag(role)
        + " <COLUMN>]\n"@
}

fn requirement_line(cfg: &ColumnConfig, role: ColumnRole) -> (r: String)
    ensures
        r@ == spec_requirement_line(*cfg, role),
{
    let mut r = String::new();
    r.append("  - ");
    r.append(cfg.name_for(role));
    r.append(" (default: ");
    r.append(role_default_header(role));
    r.append(") – ");
    r.append(role_description(role));
    r.append(" [override with ");
    r.append(role_cli_flag(role));
    r.append(" <COLUMN>]\n");
    proof {
        assert(r@ =~= spec_requirement_line(*cfg, role));
    }
    r
}

/// The full explanation given when a required header is absent.
pub open spec fn spec_missing_header_message(
    missing: Seq<char>,
    role: ColumnRole,
    cfg: ColumnConfig,
) -> Seq<char> {
    "Missing required CSV column '"@ + missing + "' ("@ + spec_role_description(role) + ").\n"@
        + "\nThe tool currently expects the following columns:\n"@ + spec_requirement_line(
        cfg,
        ColumnRole::ChemicalName,
    ) + spec_requirement_line(cfg, ColumnRole::Structure) + spec_requirement_line(
        cfg,
        ColumnRole::Taxon,
    ) + spec_requirement_line(cfg, ColumnRole::Doi)
        + "\nRename your CSV headers or rerun lotus-o3 with the override flags above to match your column names."@
}

fn missing_header_message(missing: &str, role: ColumnRole, cfg: &ColumnConfig) -> (r: String)
    ensures
        r@ == spec_missing_header_message(missing@, role, *cfg),
{
    let mut r = String::new();
    r.append("Missing required CSV column '");
    r.append(missing);
    r.append("' (");
    r.append(role_description(role));
    r.append(").\n");
    r.append("\nThe tool currently expects the following columns:\n");
    let l1 = requirement_line(cfg, ColumnRole::ChemicalName);
    r.append(l1.as_str());
    let l2 = requirement_line(cfg, ColumnRole::Structure);
    r.append(l2.as_str());
    let l3 = requirement_line(cfg, ColumnRole::Taxon);
    r.append(l3.as_str());
    let l4 = requirement_line(cfg, ColumnRole::Doi);
    r.append(l4.as_str());
    r.append(
        "\nRename your CSV headers or rerun lotus-o3 with the override flags above to match your column names.",
    );
    proof {
        assert(r@ =~= spec_missing_header_message(missing@, role, *cfg));
    }
    r
}

/// Index just after the last header before `i` that equals `name`; `0` when
/// none does.  The last occurrence wins, as a name-to-index map built by
/// insertion would have it.
pub open spec fn header_match_after(headers: Seq<Seq<char>>, name: Seq<char>, i: int) -> int
    recommends
        0 <= i <= headers.len(),
    decreases i when 0 <= i <= headers.len()
{
    if i <= 0 {
        0
    } else if headers[i - 1] == name {
        i
    } else {
        header_match_after(headers, name, i - 1)
    }
}

/// The column index a header name resolves to, when it occurs.
pub open spec fn spec_header_index(headers: Seq<Seq<char>>, name: Seq<char>) -> Option<int> {
    let k = header_match_after(headers, name, headers.len() as int);
    if k == 0 {
        None
    } else {
        Some(k - 1)
    }
}

/// Resolves the configured header of a role to a column index, or explains
/// which header is missing.
pub fn lookup_column_index(headers: &Vec<String>, columns: &ColumnConfig, role: ColumnRole) -> (r:
    Result<usize, CrateError>)
    ensures
        ({
            let hv = str_view_seq(headers@);
            let name = columns.spec_name_for(role);
            match spec_header_index(hv, name) {
                Some(idx) => r is Ok && r.unwrap() == idx,
                None => r matches Err(CrateError::MissingHeader(m)) && m@
                    == spec_missing_header_message(name, role, *columns),
            }
        }),
{
    let ghost hv = str_view_seq(headers@);
    let ghost name = columns.spec_name_for(role);
    let expected = columns.name_for(role);
    let mut i: usize = headers.len();
    while i > 0
        invariant
            0 <= i <= headers@.len(),
            hv == str_view_seq(headers@),
            name == columns.spec_name_for(role),
            expected@ == name,
            hv.len() == headers@.len(),
            forall|j: int| 0 <= j < hv.len() ==> hv[j] == headers@[j]@,
            header_match_after(hv, name, headers@.len() as int) == header_match_after(
                hv,
                name,
                i as int,
            ),
        decreases i,
    {
        if str_eq(headers[i - 1].as_str(), expected) {
            return Ok(i - 1);
        }
        i = i - 1;
    }
    Err(CrateError::MissingHeader(missing_header_message(expected, role, columns)))
}

/// The cell of a row at a column, an empty text when the row is short.
pub open spec fn field_at(row: Seq<Seq<char>>, idx: int) -> Seq<char> {
    if 0 <= idx < row.len() {
        row[idx]
    } else {
        Seq::empty()
    }
}

fn cell_trimmed(row: &Vec<String>, idx: usize) -> (r: String)
    ensures
        r@ == trim_spec(field_at(str_view_seq(row@), idx as int)),
{
    if idx < row.len() {
        trim_owned(row[idx].as_str())
    } else {
        proof {
            reveal_strlit("");
            assert(""@ =~= Seq::<char>::empty());
        }
        trim_owned("")
    }
}

/// The first required cell of a row that is empty after trimming, named by
/// its configured column, in check order: chemical name, structure, taxon,
/// reference identifier.
pub open spec fn spec_row_error_column(
    row: Seq<Seq<char>>,
    cfg: ColumnConfig,
    ci: int,
    si: int,
    ti: int,
    di: int,
) -> Option<Seq<char>> {
    if trim_spec(field_at(row, ci)).len() == 0 {
        Some(cfg.chemical_name@)
    } else if trim_spec(field_at(row, si)).len() == 0 {
        Some(cfg.structure@)
    } else if trim_spec(field_at(row, ti)).len() == 0 {
        Some(cfg.taxon@)
    } else if trim_spec(field_at(row, di)).len() == 0 {
        Some(cfg.doi@)
    } else {
        None
    }
}

/// The index of the first row at or after `i` that misses a required value,
/// or the number of rows when none does.
pub open spec fn spec_first_bad_row(
    rows: Seq<Seq<Seq<char>>>,
    cfg: ColumnConfig,
    ci: int,
    si: int,
    ti: int,
    di: int,
    i: int,
) -> int
    recommends
        0 <= i <= rows.len(),
    decreases rows.len() - i when 0 <= i <= rows.len()
{
    if i >= rows.len() {
        i
    } else if spec_row_error_column(rows[i], cfg, ci, si, ti, di) is Some {
        i
    } else {
        spec_first_bad_row(rows, cfg, ci, si, ti, di, i + 1)
    }
}

/// A validated record holds the trimmed cells of its row, the taxon label
/// normalized on top.
pub open spec fn record_matches(
    rec: InputRecord,
    row: Seq<Seq<char>>,
    ci: int,
    si: int,
    ti: int,
    di: int,
) -> bool {
    &&& rec.chemical_entity_name@ == trim_spec(field_at(row, ci))
    &&& rec.chemical_entity_smiles@ == trim_spec(field_at(row, si))
    &&& rec.taxon_name@ == normalize_taxon_spec(trim_spec(field_at(row, ti)))
    &&& rec.reference_doi@ == trim_spec(field_at(row, di))
}

/// Validates parsed rows: trims every required cell, rejects the first empty
/// one (naming its column and 1-based file row, the header being row 1), and
/// normalizes the taxon label.
pub fn validate_records(
    rows: &Vec<Vec<String>>,
    columns: &ColumnConfig,
    chemical_idx: usize,
    structure_idx: usize,
    taxon_idx: usize,
    doi_idx: usize,
) -> (r: Result<Vec<InputRecord>, CrateError>)
    requires
        rows@.len() + 2 <= usize::MAX,
    ensures
        ({
            let rv = table_views(rows@);
            let b = spec_first_bad_row(
                rv,
                *columns,
                chemical_idx as int,
                structure_idx as int,
                taxon_idx as int,
                doi_idx as int,
                0,
            );
            if b < rv.len() {
                r matches Err(CrateError::MissingValue { column, row }) && column@
                    == spec_row_error_column(
                    rv[b],
                    *columns,
                    chemical_idx as int,
                    structure_idx as int,
                    taxon_idx as int,
                    doi_idx as int,
                ).unwrap() && row == b + 2
            } else {
                r is Ok && r.unwrap()@.len() == rv.len() && (forall|i: int|
                    0 <= i < rv.len() ==> record_matches(
                        #[trigger] r.unwrap()@[i],
                        rv[i],
                        chemical_idx as int,
                        structure_idx as int,
                        taxon_idx as int,
                        doi_idx as int,
                    ))
            }
        }),
{
    let ghost rv = table_views(rows@);
    let ghost ci = chemical_idx as int;
    let ghost si = structure_idx as int;
    let ghost ti = taxon_idx as int;
    let ghost di = doi_idx as int;
    let mut valid_records: Vec<InputRecord> = Vec::new();
    let mut i: usize = 0;
    while i < rows.len()
        invariant
            0 <= i <= rows@.len(),
            rows@.len() + 2 <= usize::MAX,
            rv == table_views(rows@),
            rv.len() == rows@.len(),
            forall|j: int| 0 <= j < rv.len() ==> rv[j] == str_view_seq(rows@[j]@),
            ci == chemical_idx as int,
            si == structure_idx as int,
            ti == taxon_idx as int,
            di == doi_idx as int,
            spec_first_bad_row(rv, *columns, ci, si, ti, di, 0) == spec_first_bad_row(
                rv,
                *columns,
                ci,
                si,
                ti,
                di,
                i as int,
            ),
            valid_records@.len() == i,
            forall|j: int|
                0 <= j < i ==> record_matches(#[trigger] valid_records@[j], rv[j], ci, si, ti, di),
        decreases rows@.len() - i,
    {
        let row = &rows[i];
        let chemical_entity_name = cell_trimmed(row, chemical_idx);
        if chemical_entity_name.as_str().unicode_len() == 0 {
            return Err(
                CrateError::MissingValue { column: owned(columns.chemical_name.as_str()), row: i + 2 },
            );
        }
        let chemical_entity_smiles = cell_trimmed(row, structure_idx);
        if chemical_entity_smiles.as_str().unicode_len() == 0 {
            return Err(
                CrateError::MissingValue { column: owned(columns.structure.as_str()), row: i + 2 },
            );
        }
        let taxon_raw = cell_trimmed(row, taxon_idx);
        if taxon_raw.as_str().unicode_len() == 0 {
            return Err(
                CrateError::MissingValue { column: owned(columns.taxon.as_str()), row: i + 2 },
            );
        }
        let reference_doi = cell_trimmed(row, doi_idx);
        if reference_doi.as_str().unicode_len() == 0 {
            return Err(CrateError::MissingValue { column: owned(columns.doi.as_str()), row: i + 2 });
        }
        let taxon_name = normalize_taxon_name(taxon_raw.as_str());
        valid_records.push(
            InputRecord { chemical_entity_name, chemical_entity_smiles, taxon_name, reference_doi },
        );
        i = i + 1;
    }
    Ok(valid_records)
}

/// What parsing the CSV text yields: the header row and the data rows, or
/// the parse error's message.
pub uninterp spec fn csv_parse_of(s: Seq<char>) -> Result<
    (Seq<Seq<char>>, Seq<Seq<Seq<char>>>),
    Seq<char>,
>;

/// Parses CSV text into its header row and data rows.
///
/// Relies on `csv::Reader` in its default configuration: the first record is
/// the header row, and a record whose field count differs from the header's
/// is an error.  The outcome is a function of the text alone.  The row bound
/// holds because every parsed record consumes at least one byte of the input,
/// which a single allocation holds.
#[verifier::external_body]
fn parse_csv(content: &str) -> (r: Result<(Vec<String>, Vec<Vec<String>>), String>)
    ensures
        match r {
            Ok(parsed) => csv_parse_of(content@) == Ok::<_, Seq<char>>(
                (str_view_seq(parsed.0@), table_views(parsed.1@)),
            ) && parsed.1@.len() + 2 <= usize::MAX,
            Err(e) => csv_parse_of(content@) == Err::<(Seq<Seq<char>>, Seq<Seq<Seq<char>>>), _>(
                e@,
            ),
        },
{
    let mut reader = csv::Reader::from_reader(content.as_bytes());
    let headers: Vec<String> = match reader.headers() {
        Ok(h) => h.iter().map(|s| s.to_string()).collect(),
        Err(e) => return Err(e.to_string()),
    };
    let mut rows: Vec<Vec<String>> = Vec::new();
    for record in reader.records() {
        match record {
            Ok(rec) => rows.push(rec.iter().map(|s| s.to_string()).collect()),
            Err(e) => return Err(e.to_string()),
        }
    }
    Ok((headers, rows))
}

/// Loads and validates the input CSV text: maps the four required columns by
/// header name, trims and checks every required cell, and normalizes taxon
/// labels.  The outcome is pinned down for every input: a parse failure, the
/// first missing header in role order, the first missing value in row order,
/// or the validated records.
pub fn load_and_validate_csv(content: &str, columns: &ColumnConfig) -> (r: Result<
    Vec<InputRecord>,
    CrateError,
>)
    ensures
        ({
            match csv_parse_of(content@) {
                Err(e) => r matches Err(CrateError::CsvError(m)) && m@ == e,
                Ok(parsed) => {
                    let hv = parsed.0;
                    let rv = parsed.1;
                    if spec_header_index(hv, columns.chemical_name@) is None {
                        r matches Err(CrateError::MissingHeader(m)) && m@
                            == spec_missing_header_message(
                            columns.chemical_name@,
                            ColumnRole::ChemicalName,
                            *columns,
                        )
                    } else if spec_header_index(hv, columns.structure@) is None {
                        r matches Err(CrateError::MissingHeader(m)) && m@
                            == spec_missing_header_message(
                            columns.structure@,
                            ColumnRole::Structure,
                            *columns,
                        )
                    } else if spec_header_index(hv, columns.taxon@) is None {
                        r matches Err(CrateError::MissingHeader(m)) && m@
                            == spec_missing_header_message(
                            columns.taxon@,
                            ColumnRole::Taxon,
                            *columns,
                        )
                    } else if spec_header_index(hv, columns.doi@) is None {
                        r matches Err(CrateError::MissingHeader(m)) && m@
                            == spec_missing_header_message(columns.doi@, ColumnRole::Doi, *columns)
                    } else {
                        let ci = spec_header_index(hv, columns.chemical_name@).unwrap();
                        let si = spec_header_index(hv, columns.structure@).unwrap();
                        let ti = spec_header_index(hv, columns.taxon@).unwrap();
                        let di = spec_header_index(hv, columns.doi@).unwrap();
                        let b = spec_first_bad_row(rv, *columns, ci, si, ti, di, 0);
                        if b < rv.len() {
                            r matches Err(CrateError::MissingValue { column, row }) && column@
                                == spec_row_error_column(rv[b], *columns, ci, si, ti, di).unwrap()
                                && row == b + 2
                        } else {
                            r is Ok && r.unwrap()@.len() == rv.len() && (forall|i: int|
                                0 <= i < rv.len() ==> record_matches(
                                    #[trigger] r.unwrap()@[i],
                                    rv[i],
                                    ci,
                                    si,
                                    ti,
                                    di,
                                ))
                        }
                    }
                },
            }
        }),
{
    let parsed = match parse_csv(content) {
        Ok(parsed) => parsed,
        Err(e) => {
            return Err(CrateError::CsvError(e));
        },
    };
    let headers = parsed.0;
    let rows = parsed.1;

    let chemical_idx = match lookup_column_index(&headers, columns, ColumnRole::ChemicalName) {
        Ok(idx) => idx,
        Err(e) => {
            return Err(e);
        },
    };
    let structure_idx = match lookup_column_index(&headers, columns, ColumnRole::Structure) {
        Ok(idx) => idx,
        Err(e) => {
            return Err(e);
        },
    };
    let taxon_idx = match lookup_column_index(&headers, columns, ColumnRole::Taxon) {
        Ok(idx) => idx,
        Err(e) => {
            return Err(e);
        },
    };
    let doi_idx = match lookup_column_index(&headers, columns, ColumnRole::Doi) {
        Ok(idx) => idx,
        Err(e) => {
            return Err(e);
        },
    };

    validate_records(&rows, columns, chemical_idx, structure_idx, taxon_idx, doi_idx)
}

} // verus!
