//! The per-record reconciliation decision and the run report built from it:
//! the four decision flags, the human-readable issue list, the status-report
//! rows, and the artifact paths and submission link of a finished batch.
use crate::enrichment::EnrichedData;
use crate::text::{owned, push_char, rfind_after, rfind_char, str_eq, str_view_seq, table_views};
use crate::wikidata::checker::WikidataInfo;
use crate::wikidata::writer::{spec_record_lines, lemma_existing_claim_emits_nothing};
use vstd::prelude::*;

verus! {

pub const TAXON_UNRESOLVED_ISSUE: &'static str = "Taxon entity not found in Wikidata; taxonomic name resolution is not implemented.";

pub const REFERENCE_CURATION_ISSUE: &'static str = "DOI missing in Wikidata and Crossref lookup failed; reference must be curated manually.";

pub const OCCURRENCE_DEFERRED_ISSUE: &'static str = "Occurrence deferred until the new reference item has a QID; rerun the importer after this batch finishes in QuickStatements.";

pub const MISSING_REFERENCE_ISSUE: &'static str = "Missing reference metadata prevents occurrence creation.";

pub const MISSING_CHEMICAL_ISSUE: &'static str = "Missing chemical data prevents occurrence creation.";

/// A chemical item must be created iff none exists.
pub open spec fn spec_create_chemical(info: WikidataInfo) -> bool {
    info.chemical_qid is None
}

/// A reference item must be created iff none exists and metadata for one is
/// at hand.
pub open spec fn spec_create_reference(info: WikidataInfo) -> bool {
    info.reference_qid is None && info.reference_metadata is Some
}

/// A chemical is available for the claim: it exists or is created in this
/// very batch (where the claim can cite it from its own creation block).
pub open spec fn spec_chemical_available(info: WikidataInfo) -> bool {
    info.chemical_qid is Some || spec_create_chemical(info)
}

/// A reference is available in some form: it exists or will be created.
pub open spec fn spec_reference_available(info: WikidataInfo) -> bool {
    info.reference_qid is Some || spec_create_reference(info)
}

/// The claim is emitted now: it does not exist yet, the chemical is
/// available, and taxon and reference both already have identifiers.  A
/// reference created only in this run does not qualify: a separate command
/// block cannot cite it.
pub open spec fn spec_create_occurrence(info: WikidataInfo) -> bool {
    !info.occurrence_exists && spec_chemical_available(info) && info.reference_qid is Some
        && info.taxon_qid is Some
}

/// The claim is deferred: buildable in principle, but its reference only
/// gains a real identifier after this batch is applied.
pub open spec fn spec_occurrence_waiting(info: WikidataInfo) -> bool {
    !info.occurrence_exists && info.taxon_qid is Some && spec_chemical_available(info)
        && info.reference_qid is None && info.reference_metadata is Some
}

/// The issue list of a record, in report order: unresolved taxon, reference
/// needing manual curation, then either the deferral notice or the reason the
/// claim stays blocked.
pub open spec fn spec_issues(info: WikidataInfo) -> Seq<Seq<char>> {
    (if info.taxon_qid is None {
        seq![TAXON_UNRESOLVED_ISSUE@]
    } else {
        Seq::empty()
    }) + (if info.reference_qid is None && info.reference_metadata is None {
        seq![REFERENCE_CURATION_ISSUE@]
    } else {
        Seq::empty()
    }) + (if spec_occurrence_waiting(info) {
        seq![OCCURRENCE_DEFERRED_ISSUE@]
    } else if !info.occurrence_exists && !spec_create_occurrence(info) && info.taxon_qid is Some {
        if !spec_reference_available(info) {
            seq![MISSING_REFERENCE_ISSUE@]
        } else if !spec_chemical_available(info) {
            seq![MISSING_CHEMICAL_ISSUE@]
        } else {
            Seq::empty()
        }
    } else {
        Seq::empty()
    })
}

/// One row of the run report: what was found, what will be done, and why
/// anything was held back.
#[derive(Debug)]
pub struct RecordReport {
    pub chemical_entity_name: String,
    pub chemical_entity_smiles: String,
    pub taxon_name: String,
    pub reference_doi: String,
    pub chemical_qid: Option<String>,
    pub taxon_qid: Option<String>,
    pub reference_qid: Option<String>,
    pub create_chemical: bool,
    pub create_reference: bool,
    pub create_occurrence: bool,
    pub occurrence_waiting_on_reference: bool,
    pub issues: Vec<String>,
}

/// Two optional strings hold the same text.
pub open spec fn opt_str_eq(a: Option<String>, b: Option<String>) -> bool {
    match (a, b) {
        (Some(x), Some(y)) => x@ == y@,
        (None, None) => true,
        _ => false,
    }
}

/// Copies an optional string.
pub fn clone_opt_string(o: &Option<String>) -> (r: Option<String>)
    ensures
        opt_str_eq(r, *o),
{
    match o {
        Some(v) => Some(owned(v.as_str())),
        None => None,
    }
}

/// The report row faithfully reflects the record and the decision rules.
pub open spec fn report_matches(r: RecordReport, data: EnrichedData, info: WikidataInfo) -> bool {
    &&& r.chemical_entity_name@ == data.chemical_entity_name@
    &&& r.chemical_entity_smiles@ == data.sanitized_smiles@
    &&& r.taxon_name@ == data.taxon_name@
    &&& r.reference_doi@ == data.reference_doi@
    &&& opt_str_eq(r.chemical_qid, info.chemical_qid)
    &&& opt_str_eq(r.taxon_qid, info.taxon_qid)
    &&& opt_str_eq(r.reference_qid, info.reference_qid)
    &&& r.create_chemical == spec_create_chemical(info)
    &&& r.create_reference == spec_create_reference(info)
    &&& r.create_occurrence == spec_create_occurrence(info)
    &&& r.occurrence_waiting_on_reference == spec_occurrence_waiting(info)
    &&& str_view_seq(r.issues@) == spec_issues(info)
}

/// Derives the decision flags and issue list of one record from its resolved
/// facts.
pub fn build_record_report(data: &EnrichedData, info: &WikidataInfo) -> (r: RecordReport)
    ensures
        report_matches(r, *data, *info),
{
    let create_chemical = info.chemical_qid.is_none();
    let create_reference = info.reference_qid.is_none() && info.reference_metadata.is_some();
    let chemical_available = info.chemical_qid.is_some() || create_chemical;
    let reference_qid_available = info.reference_qid.is_some();
    let reference_available = reference_qid_available || create_reference;
    let taxon_available = info.taxon_qid.is_some();
    let create_occurrence = !info.occurrence_exists && chemical_available
        && reference_qid_available && taxon_available;
    let waiting_on_reference = !info.occurrence_exists && taxon_available && chemical_available
        && !reference_qid_available && info.reference_metadata.is_some();

    let mut issues: Vec<String> = Vec::new();
    if info.taxon_qid.is_none() {
        issues.push(owned(TAXON_UNRESOLVED_ISSUE));
    }
    if info.reference_qid.is_none() && info.reference_metadata.is_none() {
        issues.push(owned(REFERENCE_CURATION_ISSUE));
    }
    if waiting_on_reference {
        issues.push(owned(OCCURRENCE_DEFERRED_ISSUE));
    } else if !info.occurrence_exists && !create_occurrence && taxon_available {
        if !reference_available {
            issues.push(owned(MISSING_REFERENCE_ISSUE));
        } else if !chemical_available {
            issues.push(owned(MISSING_CHEMICAL_ISSUE));
        }
    }
    proof {
        assert(str_view_seq(issues@) =~= spec_issues(*info));
    }

    RecordReport {
        chemical_entity_name: owned(data.chemical_entity_name.as_str()),
        chemical_entity_smiles: owned(data.sanitized_smiles.as_str()),
        taxon_name: owned(data.taxon_name.as_str()),
        reference_doi: owned(data.reference_doi.as_str()),
        chemical_qid: clone_opt_string(&info.chemical_qid),
        taxon_qid: clone_opt_string(&info.taxon_qid),
        reference_qid: clone_opt_string(&info.reference_qid),
        create_chemical,
        create_reference,
        create_occurrence,
        occurrence_waiting_on_reference: waiting_on_reference,
        issues,
    }
}

/// Derives the report rows of a whole run, in input order.
pub fn build_record_reports(records: &Vec<(EnrichedData, WikidataInfo)>) -> (out: Vec<
    RecordReport,
>)
    ensures
        out@.len() == records@.len(),
        forall|i: int|
            0 <= i < records@.len() ==> report_matches(
                #[trigger] out@[i],
                records@[i].0,
                records@[i].1,
            ),
{
    let mut out: Vec<RecordReport> = Vec::new();
    let mut i: usize = 0;
    while i < records.len()
        invariant
            0 <= i <= records@.len(),
            out@.len() == i,
            forall|j: int|
                0 <= j < i ==> report_matches(#[trigger] out@[j], records@[j].0, records@[j].1),
        decreases records@.len() - i,
    {
        let record = &records[i];
        out.push(build_record_report(&record.0, &record.1));
        i = i + 1;
    }
    out
}

/// Renders a decision flag for the status report.
pub fn bool_to_label(flag: bool) -> (r: &'static str)
    ensures
        flag ==> r@ == "yes"@,
        !flag ==> r@ == "no"@,
{
    if flag {
        "yes"
    } else {
        "no"
    }
}

/// The tail of the joined issue list from position `i` on: each further issue
/// preceded by a separator.
pub open spec fn join_issues_tail(issues: Seq<Seq<char>>, i: int) -> Seq<char>
    recommends
        0 <= i <= issues.len(),
    decreases issues.len() - i when 0 <= i <= issues.len()
{
    if i >= issues.len() {
        Seq::empty()
    } else {
        "; "@ + issues[i] + join_issues_tail(issues, i + 1)
    }
}

/// The issue list joined with `"; "`, empty when there are no issues.
pub open spec fn spec_join_issues(issues: Seq<Seq<char>>) -> Seq<char> {
    if issues.len() == 0 {
        Seq::empty()
    } else {
        issues[0] + join_issues_tail(issues, 1)
    }
}

/// Joins a record's issues into the single status-report cell.
pub fn join_issues(issues: &Vec<String>) -> (r: String)
    ensures
        r@ == spec_join_issues(str_view_seq(issues@)),
{
    let ghost iv = str_view_seq(issues@);
    if issues.len() == 0 {
        let r = String::new();
        proof {
            assert(r@ =~= spec_join_issues(iv));
        }
        return r;
    }
    let mut r = owned(issues[0].as_str());
    let mut i: usize = 1;
    proof {
        assert(r@ + join_issues_tail(iv, 1) =~= spec_join_issues(iv));
    }
    while i < issues.len()
        invariant
            1 <= i <= issues@.len(),
            issues@.len() == iv.len(),
            forall|j: int| 0 <= j < iv.len() ==> iv[j] == issues@[j]@,
            r@ + join_issues_tail(iv, i as int) == spec_join_issues(iv),
        decreases issues@.len() - i,
    {
        r.append("; ");
        r.append(issues[i].as_str());
        proof {
            assert(r@ + join_issues_tail(iv, i as int + 1) =~= spec_join_issues(iv));
        }
        i = i + 1;
    }
    proof {
        assert(join_issues_tail(iv, iv.len() as int) =~= Seq::<char>::empty());
        assert(r@ =~= spec_join_issues(iv));
    }
    r
}

/// What an optional identifier shows in the status report: itself, or an
/// empty cell.
pub open spec fn spec_qid_cell(q: Option<String>) -> Seq<char> {
    match q {
        Some(v) => v@,
        None => Seq::empty(),
    }
}

/// What a decision flag shows in the status report.
pub open spec fn spec_label(flag: bool) -> Seq<char> {
    if flag {
        "yes"@
    } else {
        "no"@
    }
}

/// The status-report row of one record.
pub open spec fn spec_report_row(r: RecordReport) -> Seq<Seq<char>> {
    seq![
        r.chemical_entity_name@,
        r.chemical_entity_smiles@,
        r.taxon_name@,
        r.reference_doi@,
        spec_qid_cell(r.chemical_qid),
        spec_qid_cell(r.taxon_qid),
        spec_qid_cell(r.reference_qid),
        spec_label(r.create_chemical),
        spec_label(r.create_reference),
        spec_label(r.create_occurrence),
        spec_label(r.occurrence_waiting_on_reference),
        spec_join_issues(str_view_seq(r.issues@)),
    ]
}

/// The status-report header row.
pub open spec fn spec_report_header() -> Seq<Seq<char>> {
    seq![
        "chemical_entity_name"@,
        "chemical_entity_smiles"@,
        "taxon_name"@,
        "reference_doi"@,
        "chemical_qid"@,
        "taxon_qid"@,
        "reference_qid"@,
        "create_chemical"@,
        "create_reference"@,
        "create_occurrence"@,
        "occurrence_waiting_on_reference"@,
        "issues"@,
    ]
}

fn qid_cell(q: &Option<String>) -> (r: String)
    ensures
        r@ == spec_qid_cell(*q),
{
    match q {
        Some(v) => owned(v.as_str()),
        None => {
            let r = String::new();
            proof {
                assert(r@ =~= spec_qid_cell(None::<String>));
            }
            r
        },
    }
}

/// Builds the status-report table: a header row, then one row per record in
/// run order.
pub fn status_report_rows(reports: &Vec<RecordReport>) -> (rows: Vec<Vec<String>>)
    ensures
        table_views(rows@) == seq![spec_report_header()] + reports@.map_values(
            |r: RecordReport| spec_report_row(r),
        ),
{
    let mut rows: Vec<Vec<String>> = Vec::new();
    let mut header: Vec<String> = Vec::new();
    header.push(owned("chemical_entity_name"));
    header.push(owned("chemical_entity_smiles"));
    header.push(owned("taxon_name"));
    header.push(owned("reference_doi"));
    header.push(owned("chemical_qid"));
    header.push(owned("taxon_qid"));
    header.push(owned("reference_qid"));
    header.push(owned("create_chemical"));
    header.push(owned("create_reference"));
    header.push(owned("create_occurrence"));
    header.push(owned("occurrence_waiting_on_reference"));
    header.push(owned("issues"));
    proof {
        assert(str_view_seq(header@) =~= spec_report_header());
    }
    rows.push(header);
    proof {
        assert(table_views(rows@) =~= seq![spec_report_header()]);
    }

    let mut i: usize = 0;
    while i < reports.len()
        invariant
            0 <= i <= reports@.len(),
            table_views(rows@) == seq![spec_report_header()] + reports@.take(i as int).map_values(
                |r: RecordReport| spec_report_row(r),
            ),
        decreases reports@.len() - i,
    {
        let report = &reports[i];
        let issues_text = join_issues(&report.issues);
        let mut row: Vec<String> = Vec::new();
        row.push(owned(report.chemical_entity_name.as_str()));
        row.push(owned(report.chemical_entity_smiles.as_str()));
        row.push(owned(report.taxon_name.as_str()));
        row.push(owned(report.reference_doi.as_str()));
        row.push(qid_cell(&report.chemical_qid));
        row.push(qid_cell(&report.taxon_qid));
        row.push(qid_cell(&report.reference_qid));
        row.push(owned(bool_to_label(report.create_chemical)));
        row.push(owned(bool_to_label(report.create_reference)));
        row.push(owned(bool_to_label(report.create_occurrence)));
        row.push(owned(bool_to_label(report.occurrence_waiting_on_reference)));
        row.push(issues_text);
        proof {
            assert(str_view_seq(row@) =~= spec_report_row(reports@[i as int]));
        }
        let ghost pre = rows@;
        rows.push(row);
        proof {
            let f = |r: RecordReport| spec_report_row(r);
            assert(table_views(rows@) =~= table_views(pre).push(spec_report_row(reports@[i as int])));
            assert(reports@.take(i as int + 1) =~= reports@.take(i as int).push(
                reports@[i as int],
            ));
            assert(reports@.take(i as int).push(reports@[i as int]).map_values(f)
                =~= reports@.take(i as int).map_values(f).push(spec_report_row(
                reports@[i as int],
            )));
            assert(table_views(rows@) =~= seq![spec_report_header()] + reports@.take(
                i as int + 1,
            ).map_values(f));
        }
        i = i + 1;
    }
    proof {
        assert(reports@.take(reports@.len() as int) =~= reports@);
    }
    rows
}

/// The stem the artifact paths are derived from: the last path segment
/// without its extension; `status` when the path has no usable last segment.
/// Paths are treated as `/`-separated text.
pub open spec fn spec_path_stem(path: Seq<char>) -> Seq<char> {
    let cut = rfind_after(path, '/', path.len() as int);
    let fname = path.subrange(cut, path.len() as int);
    if fname.len() == 0 || fname == "."@ || fname == ".."@ {
        "status"@
    } else {
        let dot = rfind_after(fname, '.', fname.len() as int);
        if dot <= 1 {
            fname
        } else {
            fname.subrange(0, dot - 1)
        }
    }
}

/// The directory prefix of a path, up to and including its last `/`.
pub open spec fn spec_path_parent(path: Seq<char>) -> Seq<char> {
    path.subrange(0, rfind_after(path, '/', path.len() as int))
}

fn path_parent_and_stem(output_path: &str) -> (r: (String, String))
    ensures
        r.0@ == spec_path_parent(output_path@),
        r.1@ == spec_path_stem(output_path@),
{
    let n = output_path.unicode_len();
    let cut = rfind_char(output_path, '/');
    proof {
        crate::text::lemma_rfind_after(output_path@, '/', n as int);
    }
    let parent = owned(output_path.substring_char(0, cut));
    let fname = output_path.substring_char(cut, n);
    let stem: String = if fname.unicode_len() == 0 || str_eq(fname, ".") || str_eq(fname, "..") {
        owned("status")
    } else {
        let fl = fname.unicode_len();
        let dot = rfind_char(fname, '.');
        proof {
            crate::text::lemma_rfind_after(fname@, '.', fl as int);
        }
        if dot <= 1 {
            owned(fname)
        } else {
            owned(fname.substring_char(0, dot - 1))
        }
    };
    (parent, stem)
}

/// The path of the per-record status report, next to the batch file:
/// `<stem>_status.tsv`.
pub fn build_report_path(output_path: &str) -> (r: String)
    ensures
        r@ == spec_path_parent(output_path@) + spec_path_stem(output_path@) + "_status.tsv"@,
{
    let (parent, stem) = path_parent_and_stem(output_path);
    let mut r = parent;
    r.append(stem.as_str());
    r.append("_status.tsv");
    r
}

/// The path the ready-to-run submission link is saved to, next to the batch
/// file: `<stem>_qs_url.txt`.
pub fn build_qs_link_path(output_path: &str) -> (r: String)
    ensures
        r@ == spec_path_parent(output_path@) + spec_path_stem(output_path@) + "_qs_url.txt"@,
{
    let (parent, stem) = path_parent_and_stem(output_path);
    let mut r = parent;
    r.append(stem.as_str());
    r.append("_qs_url.txt");
    r
}

/// One step of preparing batch text for the submission link: carriage
/// returns vanish, a tab becomes the column separator, a newline the command
/// separator.
pub open spec fn link_escaped_char(c: char) -> Seq<char> {
    if c == '\r' {
        Seq::empty()
    } else if c == '\t' {
        seq!['|']
    } else if c == '\n' {
        seq!['|', '|']
    } else {
        seq![c]
    }
}

/// The link-ready form of the batch text, from position `i` on.
pub open spec fn link_escaped_from(s: Seq<char>, i: int) -> Seq<char>
    recommends
        0 <= i <= s.len(),
    decreases s.len() - i when 0 <= i <= s.len()
{
    if i >= s.len() {
        Seq::empty()
    } else {
        link_escaped_char(s[i]) + link_escaped_from(s, i + 1)
    }
}

/// What `urlencoding::encode` returns; the result depends on the characters
/// alone.
pub uninterp spec fn url_encoded_of(s: Seq<char>) -> Seq<char>;

/// Percent-encodes a string for a URL.
///
/// Relies on `urlencoding::encode`: percent-encodes every byte except ASCII
/// alphanumerics and `-`, `_`, `.`, `~`; a pure function of the input.
#[verifier::external_body]
fn url_encode(s: &str) -> (r: String)
    ensures
        r@ == url_encoded_of(s@),
{
    urlencoding::encode(s).into_owned()
}

/// Builds the ready-to-run submission link for a finished batch text.
pub fn quickstatements_link(contents: &str) -> (r: String)
    ensures
        r@ == "https://quickstatements.toolforge.org/#/v1="@ + url_encoded_of(
            link_escaped_from(contents@, 0),
        ),
{
    let n = contents.unicode_len();
    let mut replaced = String::new();
    let mut i: usize = 0;
    while i < n
        invariant
            0 <= i <= n,
            n == contents@.len(),
            replaced@ + link_escaped_from(contents@, i as int) == link_escaped_from(contents@, 0),
        decreases n - i,
    {
        let c = contents.get_char(i);
        if c == '\r' {
            proof {
                assert(link_escaped_char(contents@[i as int]) =~= Seq::<char>::empty());
            }
        } else if c == '\t' {
            push_char(&mut replaced, '|');
            proof {
                assert(link_escaped_char(contents@[i as int]) =~= seq!['|']);
            }
        } else if c == '\n' {
            push_char(&mut replaced, '|');
            push_char(&mut replaced, '|');
            proof {
                assert(link_escaped_char(contents@[i as int]) =~= seq!['|', '|']);
            }
        } else {
            push_char(&mut replaced, c);
            proof {
                assert(link_escaped_char(contents@[i as int]) =~= seq![contents@[i as int]]);
            }
        }
        proof {
            assert(replaced@ + link_escaped_from(contents@, i as int + 1) =~= link_escaped_from(
                contents@,
                0,
            ));
        }
        i = i + 1;
    }
    let encoded = url_encode(replaced.as_str());
    let mut r = String::new();
    r.append("https://quickstatements.toolforge.org/#/v1=");
    r.append(encoded.as_str());
    proof {
        assert(r@ =~= "https://quickstatements.toolforge.org/#/v1="@ + url_encoded_of(
            link_escaped_from(contents@, 0),
        ));
    }
    r
}

/// Law: a record in which nothing was resolved — no chemical, taxon or
/// reference identifier — creates the chemical, creates the reference
/// exactly when metadata is at hand, and emits no claim now.  The claim is
/// not deferred either: deferral requires a resolved taxon.
pub proof fn lemma_nothing_resolved_decision(info: WikidataInfo)
    requires
        info.chemical_qid is None,
        info.taxon_qid is None,
        info.reference_qid is None,
    ensures
        spec_create_chemical(info),
        spec_create_reference(info) <==> info.reference_metadata is Some,
        !spec_create_occurrence(info),
        !spec_occurrence_waiting(info),
{
}

/// Law (round trip): a record whose facts hold all three identifiers and an
/// already-existing claim yields no command lines at all and an empty issue
/// list.
pub proof fn lemma_round_trip_empty(
    data: EnrichedData,
    info: WikidataInfo,
    st: Set<Seq<char>>,
)
    requires
        info.chemical_qid is Some,
        info.taxon_qid is Some,
        info.reference_qid is Some,
        info.occurrence_exists,
    ensures
        spec_record_lines(data, info, st) == Seq::<Seq<char>>::empty(),
        spec_issues(info) == Seq::<Seq<char>>::empty(),
{
    lemma_existing_claim_emits_nothing(data, info, st);
    assert(spec_issues(info) =~= Seq::<Seq<char>>::empty());
}

} // verus!
