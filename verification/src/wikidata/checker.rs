//! Resolution of existing knowledge-base entities: the resolved facts of a
//! record, the queries the resolver sends, and the decoding of what comes
//! back.  Executing the queries over the network happens outside the
//! library; everything around the calls is verified here.
use crate::reference::ReferenceMetadata;
use crate::text::{lower_of, owned, rfind_after, rfind_char, str_eq, str_view_seq, to_lowercase,
    to_uppercase, trim_slice, trim_spec, upper_of};
use vstd::prelude::*;

verus! {

/// The resolved facts of one record: which entities already exist, whether
/// the specific occurrence claim does, and the bibliographic metadata fetched
/// when the reference was not found.
#[derive(Debug, Clone)]
pub struct WikidataInfo {
    pub chemical_qid: Option<String>,
    pub taxon_qid: Option<String>,
    pub reference_qid: Option<String>,
    pub occurrence_exists: bool,
    pub reference_metadata: Option<ReferenceMetadata>,
}

impl WikidataInfo {
    /// The facts are well-formed when the occurrence check was only ever made
    /// with all three identifiers present: a record whose chemical, taxon or
    /// reference is missing can never count as already claimed.
    pub open spec fn wf(&self) -> bool {
        self.occurrence_exists ==> self.chemical_qid is Some && self.taxon_qid is Some
            && self.reference_qid is Some
    }
}

/// Assembles resolved facts, holding the well-formedness invariant: the
/// occurrence flag is only kept when all three identifiers were found.
pub fn assemble_wikidata_info(
    chemical_qid: Option<String>,
    taxon_qid: Option<String>,
    reference_qid: Option<String>,
    occurrence_exists: bool,
    reference_metadata: Option<ReferenceMetadata>,
) -> (info: WikidataInfo)
    ensures
        info.wf(),
        info.chemical_qid == chemical_qid,
        info.taxon_qid == taxon_qid,
        info.reference_qid == reference_qid,
        info.occurrence_exists == (occurrence_exists && chemical_qid is Some && taxon_qid is Some
            && reference_qid is Some),
        info.reference_metadata == reference_metadata,
{
    let all_found = chemical_qid.is_some() && taxon_qid.is_some() && reference_qid.is_some();
    WikidataInfo {
        chemical_qid,
        taxon_qid,
        reference_qid,
        occurrence_exists: occurrence_exists && all_found,
        reference_metadata,
    }
}

/// One value binding of a query answer.
#[derive(Debug, Clone)]
pub struct SparqlBinding {
    pub datatype: String,
    pub value: String,
}

/// The decoded answer of the knowledge-base query service: the first
/// solution's bindings for a SELECT, or a truth value for an ASK.
#[derive(Debug, Clone)]
pub struct SparqlResponse {
    pub results: Option<Vec<SparqlRow>>,
    pub boolean: Option<bool>,
}

/// One solution row: named bindings in answer order.
#[derive(Debug, Clone)]
pub struct SparqlRow {
    pub entries: Vec<(String, SparqlBinding)>,
}

/// The first binding of a row under the given name.
pub open spec fn row_get(entries: Seq<(String, SparqlBinding)>, name: Seq<char>) -> Option<
    SparqlBinding,
>
    decreases entries.len(),
{
    if entries.len() == 0 {
        None
    } else if entries.first().0@ == name {
        Some(entries.first().1)
    } else {
        row_get(entries.drop_first(), name)
    }
}

/// The suffix of `s` after its last `/` (all of `s` when it has none).
pub open spec fn suffix_after_slash(s: Seq<char>) -> Seq<char> {
    s.subrange(rfind_after(s, '/', s.len() as int), s.len() as int)
}

/// The entity identifier a SELECT answer names under `var_name`: the part of
/// the first solution's URI after the last slash; nothing when the answer is
/// empty or the binding is not a URI.
pub open spec fn spec_extract_qid(response: SparqlResponse, var_name: Seq<char>) -> Option<
    Seq<char>,
> {
    match response.results {
        None => None,
        Some(rows) => {
            if rows@.len() == 0 {
                None
            } else {
                match row_get(rows@[0].entries@, var_name) {
                    None => None,
                    Some(binding) => {
                        if binding.datatype@ == "uri"@ {
                            Some(suffix_after_slash(binding.value@))
                        } else {
                            None
                        }
                    },
                }
            }
        },
    }
}

/// Extracts the entity identifier bound to `var_name` in the first solution
/// of a SELECT answer.
#[verifier::loop_isolation(false)]
pub fn extract_qid(response: &SparqlResponse, var_name: &str) -> (r: Option<String>)
    ensures
        r is Some <==> spec_extract_qid(*response, var_name@) is Some,
        r is Some ==> r.unwrap()@ == spec_extract_qid(*response, var_name@).unwrap(),
{
    let rows = match &response.results {
        None => {
            return None;
        },
        Some(rows) => rows,
    };
    if rows.len() == 0 {
        return None;
    }
    let row0 = &rows[0];
    let entries = &row0.entries;
    proof {
        assert(rows@.len() > 0);
        assert(*row0 == rows@[0]);
        assert(row0.entries@ == rows@[0].entries@);
        assert(entries@ == rows@[0].entries@);
    }
    let mut i: usize = 0;
    proof {
        assert(entries@.skip(0) =~= entries@);
    }
    while i < entries.len()
        invariant
            0 <= i <= entries@.len(),
            row_get(entries@, var_name@) == row_get(entries@.skip(i as int), var_name@),
        decreases entries@.len() - i,
    {
        let ghost pre = entries@.skip(i as int);
        proof {
            assert(pre.first() == entries@[i as int]);
            assert(pre.drop_first() =~= entries@.skip(i as int + 1));
        }
        if str_eq(entries[i].0.as_str(), var_name) {
            proof {
                assert(row_get(entries@.skip(i as int), var_name@) == Some(
                    entries@[i as int].1,
                ));
            }
            let binding = &entries[i].1;
            proof {
                assert(entries@ == rows@[0].entries@);
                assert(row_get(rows@[0].entries@, var_name@) == Some(entries@[i as int].1));
            }
            if str_eq(binding.datatype.as_str(), "uri") {
                let v = binding.value.as_str();
                let cut = rfind_char(v, '/');
                proof {
                    crate::text::lemma_rfind_after(v@, '/', v@.len() as int);
                    assert(spec_extract_qid(*response, var_name@) == Some(
                        suffix_after_slash(entries@[i as int].1.value@),
                    ));
                }
                let tail = v.substring_char(cut, v.unicode_len());
                return Some(owned(tail));
            } else {
                return None;
            }
        }
        i = i + 1;
    }
    None
}

/// The candidate spellings tried when resolving a reference identifier: the
/// trimmed form, then the upper-cased form when it differs, then the
/// lower-cased form when it differs from both.
pub open spec fn spec_doi_candidates(t: Seq<char>) -> Seq<Seq<char>> {
    let base = seq![t];
    let with_upper = if upper_of(t) != t {
        base + seq![upper_of(t)]
    } else {
        base
    };
    if lower_of(t) != t && lower_of(t) != upper_of(t) {
        with_upper + seq![lower_of(t)]
    } else {
        with_upper
    }
}

/// Lists the spellings of a reference identifier to try, in order, to
/// tolerate case drift in the knowledge base.
pub fn doi_candidates(doi: &str) -> (out: Vec<String>)
    ensures
        str_view_seq(out@) == spec_doi_candidates(trim_spec(doi@)),
{
    let trimmed = trim_slice(doi);
    let mut out: Vec<String> = Vec::new();
    out.push(owned(trimmed));

    let upper = to_uppercase(trimmed);
    let upper_differs = !str_eq(upper.as_str(), trimmed);
    if upper_differs {
        out.push(upper.clone());
    }

    let lower = to_lowercase(trimmed);
    if !str_eq(lower.as_str(), trimmed) && !str_eq(lower.as_str(), upper.as_str()) {
        out.push(lower);
    }
    proof {
        assert(str_view_seq(out@) =~= spec_doi_candidates(trim_spec(doi@)));
    }
    out
}

/// One escaping step: a double quote gains a backslash, anything else stands.
pub open spec fn quote_escaped_char(c: char) -> Seq<char> {
    if c == '"' {
        seq!['\\', '"']
    } else {
        seq![c]
    }
}

/// The string with every double quote escaped, from position `i` on.
pub open spec fn quote_escaped_from(s: Seq<char>, i: int) -> Seq<char>
    recommends
        0 <= i <= s.len(),
    decreases s.len() - i when 0 <= i <= s.len()
{
    if i >= s.len() {
        Seq::empty()
    } else {
        quote_escaped_char(s[i]) + quote_escaped_from(s, i + 1)
    }
}

/// Escapes double quotes for embedding in a query literal.
pub fn escape_quotes(s: &str) -> (r: String)
    ensures
        r@ == quote_escaped_from(s@, 0),
{
    let n = s.unicode_len();
    let mut r = String::new();
    let mut i: usize = 0;
    while i < n
        invariant
            0 <= i <= n,
            n == s@.len(),
            r@ + quote_escaped_from(s@, i as int) == quote_escaped_from(s@, 0),
        decreases n - i,
    {
        let c = s.get_char(i);
        if c == '"' {
            crate::text::push_char(&mut r, '\\');
            crate::text::push_char(&mut r, '"');
            proof {
                assert(quote_escaped_char(s@[i as int]) =~= seq!['\\', '"']);
            }
        } else {
            crate::text::push_char(&mut r, c);
            proof {
                assert(quote_escaped_char(s@[i as int]) =~= seq![s@[i as int]]);
            }
        }
        proof {
            assert(r@ + quote_escaped_from(s@, i as int + 1) =~= quote_escaped_from(s@, 0));
        }
        i = i + 1;
    }
    r
}

/// The SELECT query that looks a chemical up by its structural identifier.
pub fn chemical_query(inchikey: &str) -> (q: String)
    ensures
        q@ == "SELECT ?item WHERE { ?item wdt:P235 \""@ + inchikey@ + "\". }"@,
{
    let mut q = String::new();
    q.append("SELECT ?item WHERE { ?item wdt:P235 \"");
    q.append(inchikey);
    q.append("\". }");
    proof {
        assert(q@ =~= "SELECT ?item WHERE { ?item wdt:P235 \""@ + inchikey@ + "\". }"@);
    }
    q
}

/// The SELECT query that looks a taxon up by its exact name literal.
pub fn taxon_query(taxon_name: &str) -> (q: String)
    ensures
        q@ == "SELECT ?item WHERE { ?item wdt:P225 \""@ + taxon_name@ + "\". }"@,
{
    let mut q = String::new();
    q.append("SELECT ?item WHERE { ?item wdt:P225 \"");
    q.append(taxon_name);
    q.append("\". }");
    proof {
        assert(q@ =~= "SELECT ?item WHERE { ?item wdt:P225 \""@ + taxon_name@ + "\". }"@);
    }
    q
}

/// The SELECT query that looks a reference up by one spelling of its
/// identifier, in the main graph and in the scholarly-article subgraph.
pub fn reference_query(candidate: &str) -> (q: String)
    ensures
        q@ == "SELECT ?item WHERE {\n                {\n                    ?item wdt:P356 \""@
            + quote_escaped_from(candidate@, 0)
            + "\".\n                } UNION {\n                    SERVICE wdsubgraph:scholarly_articles {\n                        ?item wdt:P356 \""@
            + quote_escaped_from(candidate@, 0)
            + "\".\n                    }\n                }\n            }"@,
{
    let escaped = escape_quotes(candidate);
    let mut q = String::new();
    q.append("SELECT ?item WHERE {\n                {\n                    ?item wdt:P356 \"");
    q.append(escaped.as_str());
    q.append(
        "\".\n                } UNION {\n                    SERVICE wdsubgraph:scholarly_articles {\n                        ?item wdt:P356 \"",
    );
    q.append(escaped.as_str());
    q.append("\".\n                    }\n                }\n            }");
    proof {
        assert(q@ =~= "SELECT ?item WHERE {\n                {\n                    ?item wdt:P356 \""@
            + quote_escaped_from(candidate@, 0)
            + "\".\n                } UNION {\n                    SERVICE wdsubgraph:scholarly_articles {\n                        ?item wdt:P356 \""@
            + quote_escaped_from(candidate@, 0)
            + "\".\n                    }\n                }\n            }"@);
    }
    q
}

/// The SELECT query that matches a journal by label, case-insensitively,
/// against the allowed periodical classes.
pub fn journal_label_query(title: &str) -> (q: String)
    ensures
        q@ == "SELECT ?item WHERE {\n            VALUES ?class { wd:Q5633421 wd:Q1002697 wd:Q737498 }\n            ?item wdt:P31/wdt:P279* ?class ;\n                  rdfs:label ?label .\n            FILTER (lcase(str(?label)) = lcase(\""@
            + title@ + "\"))\n        } LIMIT 1"@,
{
    let mut q = String::new();
    q.append(
        "SELECT ?item WHERE {\n            VALUES ?class { wd:Q5633421 wd:Q1002697 wd:Q737498 }\n            ?item wdt:P31/wdt:P279* ?class ;\n                  rdfs:label ?label .\n            FILTER (lcase(str(?label)) = lcase(\"",
    );
    q.append(title);
    q.append("\"))\n        } LIMIT 1");
    proof {
        assert(q@ =~= "SELECT ?item WHERE {\n            VALUES ?class { wd:Q5633421 wd:Q1002697 wd:Q737498 }\n            ?item wdt:P31/wdt:P279* ?class ;\n                  rdfs:label ?label .\n            FILTER (lcase(str(?label)) = lcase(\""@
            + title@ + "\"))\n        } LIMIT 1"@);
    }
    q
}

/// The SELECT query that matches a journal by its serial number.
pub fn journal_issn_query(issn: &str) -> (q: String)
    ensures
        q@ == "SELECT ?item WHERE {\n            ?item wdt:P236 \""@ + issn@
            + "\" .\n        } LIMIT 1"@,
{
    let mut q = String::new();
    q.append("SELECT ?item WHERE {\n            ?item wdt:P236 \"");
    q.append(issn);
    q.append("\" .\n        } LIMIT 1");
    proof {
        assert(q@ =~= "SELECT ?item WHERE {\n            ?item wdt:P236 \""@ + issn@
            + "\" .\n        } LIMIT 1"@);
    }
    q
}

/// The ASK query that tests whether the exact occurrence claim, at normal
/// rank and sourced to the reference, already exists.
pub fn occurrence_query(chemical_qid: &str, taxon_qid: &str, reference_qid: &str) -> (q: String)
    ensures
        q@ == "ASK WHERE {\n            wd:"@ + chemical_qid@
            + " p:P703 ?statement.\n            ?statement ps:P703 wd:"@ + taxon_qid@
            + ";\n                wikibase:rank wikibase:NormalRank;\n                (prov:wasDerivedFrom/pr:P248) wd:"@
            + reference_qid@ + ".\n        }"@,
{
    let mut q = String::new();
    q.append("ASK WHERE {\n            wd:");
    q.append(chemical_qid);
    q.append(" p:P703 ?statement.\n            ?statement ps:P703 wd:");
    q.append(taxon_qid);
    q.append(
        ";\n                wikibase:rank wikibase:NormalRank;\n                (prov:wasDerivedFrom/pr:P248) wd:",
    );
    q.append(reference_qid);
    q.append(".\n        }");
    proof {
        assert(q@ =~= "ASK WHERE {\n            wd:"@ + chemical_qid@
            + " p:P703 ?statement.\n            ?statement ps:P703 wd:"@ + taxon_qid@
            + ";\n                wikibase:rank wikibase:NormalRank;\n                (prov:wasDerivedFrom/pr:P248) wd:"@
            + reference_qid@ + ".\n        }"@);
    }
    q
}

} // verus!
