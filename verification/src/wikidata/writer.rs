//! Batch-command generation: turns resolved facts into QuickStatements
//! lines, enforcing that a freshly created entity is only cited through the
//! `LAST` placeholder of its own creation block, and deduplicating reference
//! creation by identifier across the whole run.
use crate::enrichment::EnrichedData;
use crate::reference::{
    spec_retrieved_date, format_retrieved_date, ReferenceAuthor, ReferenceMetadata, CROSSREF_QID,
};
use crate::text::{
    dec_str, fmt_u64, lower_of, owned, push_char, str_view_seq, to_lowercase, trim_spec,
};
use crate::wikidata::checker::WikidataInfo;
use vstd::prelude::*;

verus! {

/// One escaping step of a statement literal: backslashes and double quotes
/// gain a backslash, an embedded newline becomes a space, anything else
/// stands.
pub open spec fn literal_escaped_char(c: char) -> Seq<char> {
    if c == '\\' {
        seq!['\\', '\\']
    } else if c == '"' {
        seq!['\\', '"']
    } else if c == '\n' {
        seq![' ']
    } else {
        seq![c]
    }
}

/// The escaped form of a literal, from position `i` on.
pub open spec fn literal_escaped_from(s: Seq<char>, i: int) -> Seq<char>
    recommends
        0 <= i <= s.len(),
    decreases s.len() - i when 0 <= i <= s.len()
{
    if i >= s.len() {
        Seq::empty()
    } else {
        literal_escaped_char(s[i]) + literal_escaped_from(s, i + 1)
    }
}

/// A string literal as it may stand inside a quoted statement value: escaped
/// character by character, then trimmed of surrounding whitespace.
pub open spec fn spec_escape_literal(s: Seq<char>) -> Seq<char> {
    trim_spec(literal_escaped_from(s, 0))
}

/// Escapes a value for use inside a quoted statement literal.
pub fn escape_literal(value: &str) -> (r: String)
    ensures
        r@ == spec_escape_literal(value@),
{
    let n = value.unicode_len();
    let mut acc = String::new();
    let mut i: usize = 0;
    while i < n
        invariant
            0 <= i <= n,
            n == value@.len(),
            acc@ + literal_escaped_from(value@, i as int) == literal_escaped_from(value@, 0),
        decreases n - i,
    {
        let c = value.get_char(i);
        if c == '\\' {
            push_char(&mut acc, '\\');
            push_char(&mut acc, '\\');
            proof {
                assert(literal_escaped_char(value@[i as int]) =~= seq!['\\', '\\']);
            }
        } else if c == '"' {
            push_char(&mut acc, '\\');
            push_char(&mut acc, '"');
            proof {
                assert(literal_escaped_char(value@[i as int]) =~= seq!['\\', '"']);
            }
        } else if c == '\n' {
            push_char(&mut acc, ' ');
            proof {
                assert(literal_escaped_char(value@[i as int]) =~= seq![' ']);
            }
        } else {
            push_char(&mut acc, c);
            proof {
                assert(literal_escaped_char(value@[i as int]) =~= seq![value@[i as int]]);
            }
        }
        proof {
            assert(acc@ + literal_escaped_from(value@, i as int + 1) =~= literal_escaped_from(
                value@,
                0,
            ));
        }
        i = i + 1;
    }
    crate::text::trim_owned(acc.as_str())
}

/// The source qualifier appended to every statement of a reference creation
/// block: sourced to the bibliographic collaborator on the retrieval date.
pub open spec fn spec_source_suffix(m: ReferenceMetadata) -> Seq<char> {
    "\tS248\t"@ + CROSSREF_QID@ + "\tS813\t"@ + spec_retrieved_date(m.retrieved_on)
}

/// One author statement of a reference creation block, carrying the author's
/// ordinal as a series qualifier.
pub open spec fn spec_author_line(a: ReferenceAuthor, m: ReferenceMetadata) -> Seq<char> {
    "LAST\tP2093\t\""@ + spec_escape_literal(a.full_name@) + "\"\tP1545\t\""@ + dec_str(
        a.ordinal as nat,
    ) + "\""@ + spec_source_suffix(m)
}

/// The unconditional head of a reference creation block: the creation
/// command, label, description, class, identifier statement and monolingual
/// title.
pub open spec fn spec_reference_head(m: ReferenceMetadata) -> Seq<Seq<char>> {
    seq![
        "CREATE"@,
        "LAST\tLmul\t\""@ + spec_escape_literal(m.title@) + "\""@,
        "LAST\tDen\t\"scholarly reference\""@,
        "LAST\tP31\t"@ + m.entity_type_qid@,
        "LAST\tP356\t\""@ + spec_escape_literal(m.doi@) + "\""@ + spec_source_suffix(m),
        "LAST\tP1476\t"@ + (match m.title_language {
            Some(l) => l@,
            None => "mul"@,
        }) + ":\""@ + spec_escape_literal(m.title@) + "\""@ + spec_source_suffix(m),
    ]
}

/// The optional statements of a reference creation block, in their fixed
/// order: language, publication date, journal, volume, issue.
pub open spec fn spec_reference_optionals(m: ReferenceMetadata) -> Seq<Seq<char>> {
    (match m.language_qid {
        Some(q) => seq!["LAST\tP407\t"@ + q@ + spec_source_suffix(m)],
        None => Seq::empty(),
    }) + (match m.publication_date {
        Some(d) => seq!["LAST\tP577\t"@ + d.spec_qs_time() + spec_source_suffix(m)],
        None => Seq::empty(),
    }) + (match m.journal_qid {
        Some(q) => seq!["LAST\tP1433\t"@ + q@ + spec_source_suffix(m)],
        None => Seq::empty(),
    }) + (match m.volume {
        Some(v) => seq!["LAST\tP478\t\""@ + spec_escape_literal(v@) + "\""@ + spec_source_suffix(m)],
        None => Seq::empty(),
    }) + (match m.issue {
        Some(v) => seq!["LAST\tP433\t\""@ + spec_escape_literal(v@) + "\""@ + spec_source_suffix(m)],
        None => Seq::empty(),
    })
}

/// A whole reference creation block.
pub open spec fn spec_reference_commands(m: ReferenceMetadata) -> Seq<Seq<char>> {
    spec_reference_head(m) + spec_reference_optionals(m) + m.authors@.map_values(
        |a: ReferenceAuthor| spec_author_line(a, m),
    )
}

fn author_line(author: &ReferenceAuthor, suffix: &String) -> (line: String)
    ensures
        line@ == "LAST\tP2093\t\""@ + spec_escape_literal(author.full_name@) + "\"\tP1545\t\""@
            + dec_str(author.ordinal as nat) + "\""@ + suffix@,
{
    let escaped_name = escape_literal(author.full_name.as_str());
    let ordinal = fmt_u64(author.ordinal as u64);
    proof {
        assert(author.ordinal as u64 as nat == author.ordinal as nat);
    }
    let mut line = String::new();
    line.append("LAST\tP2093\t\"");
    line.append(escaped_name.as_str());
    line.append("\"\tP1545\t\"");
    line.append(ordinal.as_str());
    line.append("\"");
    line.append(suffix.as_str());
    proof {
        assert(line@ =~= "LAST\tP2093\t\""@ + spec_escape_literal(author.full_name@)
            + "\"\tP1545\t\""@ + dec_str(author.ordinal as nat) + "\""@ + suffix@);
    }
    line
}

fn source_suffix(metadata: &ReferenceMetadata) -> (r: String)
    ensures
        r@ == spec_source_suffix(*metadata),
{
    let retrieved = format_retrieved_date(&metadata.retrieved_on);
    let mut s = String::new();
    s.append("\tS248\t");
    s.append(CROSSREF_QID);
    s.append("\tS813\t");
    s.append(retrieved.as_str());
    proof {
        assert(s@ =~= spec_source_suffix(*metadata));
    }
    s
}

/// Renders the creation block of a reference item out of its metadata.
pub fn build_reference_commands(metadata: &ReferenceMetadata) -> (commands: Vec<String>)
    ensures
        str_view_seq(commands@) == spec_reference_commands(*metadata),
{
    let suffix = source_suffix(metadata);
    let escaped_title = escape_literal(metadata.title.as_str());
    let mut commands: Vec<String> = Vec::new();

    commands.push(owned("CREATE"));

    let mut line = String::new();
    line.append("LAST\tLmul\t\"");
    line.append(escaped_title.as_str());
    line.append("\"");
    commands.push(line);

    commands.push(owned("LAST\tDen\t\"scholarly reference\""));

    let mut line = String::new();
    line.append("LAST\tP31\t");
    line.append(metadata.entity_type_qid.as_str());
    commands.push(line);

    let escaped_doi = escape_literal(metadata.doi.as_str());
    let mut line = String::new();
    line.append("LAST\tP356\t\"");
    line.append(escaped_doi.as_str());
    line.append("\"");
    line.append(suffix.as_str());
    commands.push(line);

    let mut line = String::new();
    line.append("LAST\tP1476\t");
    match &metadata.title_language {
        Some(l) => line.append(l.as_str()),
        None => line.append("mul"),
    }
    line.append(":\"");
    line.append(escaped_title.as_str());
    line.append("\"");
    line.append(suffix.as_str());
    commands.push(line);

    proof {
        assert(str_view_seq(commands@) =~= spec_reference_head(*metadata));
    }

    if let Some(language_qid) = &metadata.language_qid {
        let mut line = String::new();
        line.append("LAST\tP407\t");
        line.append(language_qid.as_str());
        line.append(suffix.as_str());
        commands.push(line);
    }
    if let Some(date) = &metadata.publication_date {
        let time = date.to_quickstatements_time();
        let mut line = String::new();
        line.append("LAST\tP577\t");
        line.append(time.as_str());
        line.append(suffix.as_str());
        commands.push(line);
    }
    if let Some(journal_qid) = &metadata.journal_qid {
        let mut line = String::new();
        line.append("LAST\tP1433\t");
        line.append(journal_qid.as_str());
        line.append(suffix.as_str());
        commands.push(line);
    }
    if let Some(volume) = &metadata.volume {
        let escaped = escape_literal(volume.as_str());
        let mut line = String::new();
        line.append("LAST\tP478\t\"");
        line.append(escaped.as_str());
        line.append("\"");
        line.append(suffix.as_str());
        commands.push(line);
    }
    if let Some(issue) = &metadata.issue {
        let escaped = escape_literal(issue.as_str());
        let mut line = String::new();
        line.append("LAST\tP433\t\"");
        line.append(escaped.as_str());
        line.append("\"");
        line.append(suffix.as_str());
        commands.push(line);
    }

    proof {
        assert(str_view_seq(commands@) =~= spec_reference_head(*metadata)
            + spec_reference_optionals(*metadata));
    }

    let ghost before_authors = commands@;
    let mut i: usize = 0;
    while i < metadata.authors.len()
        invariant
            0 <= i <= metadata.authors@.len(),
            suffix@ == spec_source_suffix(*metadata),
            str_view_seq(commands@) == str_view_seq(before_authors) + metadata.authors@.take(
                i as int,
            ).map_values(|a: ReferenceAuthor| spec_author_line(a, *metadata)),
        decreases metadata.authors@.len() - i,
    {
        let line = author_line(&metadata.authors[i], &suffix);
        proof {
            assert(line@ == spec_author_line(metadata.authors@[i as int], *metadata));
        }
        let ghost oc = commands@;
        commands.push(line);
        proof {
            let la = metadata.authors@;
            let f = |a: ReferenceAuthor| spec_author_line(a, *metadata);
            assert(str_view_seq(commands@) =~= str_view_seq(oc).push(
                spec_author_line(la[i as int], *metadata),
            ));
            assert(la.take(i as int + 1) =~= la.take(i as int).push(la[i as int]));
            assert(la.take(i as int).push(la[i as int]).map_values(f) =~= la.take(
                i as int,
            ).map_values(f).push(spec_author_line(la[i as int], *metadata)));
            assert((str_view_seq(before_authors) + la.take(i as int).map_values(f)).push(
                spec_author_line(la[i as int], *metadata),
            ) =~= str_view_seq(before_authors) + la.take(i as int).map_values(f).push(
                spec_author_line(la[i as int], *metadata),
            ));
        }
        i = i + 1;
    }
    proof {
        assert(metadata.authors@.take(metadata.authors@.len() as int) =~= metadata.authors@);
        assert(str_view_seq(commands@) =~= spec_reference_commands(*metadata));
    }
    commands
}

/// The statement that claims the occurrence: chemical, taxon, and the
/// reference as a qualifying source.
pub open spec fn spec_occurrence_line(
    chemical: Seq<char>,
    taxon: Seq<char>,
    reference: Seq<char>,
) -> Seq<char> {
    chemical + "\tP703\t"@ + taxon + "\tS248\t"@ + reference
}

fn occurrence_line(chemical: &str, taxon: &str, reference: &str) -> (r: String)
    ensures
        r@ == spec_occurrence_line(chemical@, taxon@, reference@),
{
    let mut s = String::new();
    s.append(chemical);
    s.append("\tP703\t");
    s.append(taxon);
    s.append("\tS248\t");
    s.append(reference);
    proof {
        assert(s@ =~= spec_occurrence_line(chemical@, taxon@, reference@));
    }
    s
}

/// The creation block of a chemical item: label, description, class, the
/// available descriptor statements, and — only when both the taxon and the
/// reference already exist — the occurrence claim citing the block's own
/// `LAST` placeholder.
pub open spec fn spec_chemical_commands(data: EnrichedData, info: WikidataInfo) -> Seq<Seq<char>> {
    seq![
        "CREATE"@,
        "LAST\tLen\t\""@ + data.chemical_entity_name@ + "\""@,
        "LAST\tDen\t\"type of chemical entity\""@,
        "LAST\tP31\tQ113145171"@,
    ] + (match data.canonical_smiles {
        Some(v) => seq!["LAST\tP233\t\""@ + v@ + "\""@],
        None => Seq::empty(),
    }) + (match data.isomeric_smiles {
        Some(v) => seq!["LAST\tP2017\t\""@ + v@ + "\""@],
        None => Seq::empty(),
    }) + (match data.inchi {
        Some(v) => seq!["LAST\tP234\t\""@ + v@ + "\""@],
        None => Seq::empty(),
    }) + (match data.inchikey {
        Some(v) => seq!["LAST\tP235\t\""@ + v@ + "\""@],
        None => Seq::empty(),
    }) + (match data.molecular_formula {
        Some(v) => seq!["LAST\tP274\t\""@ + v@ + "\""@],
        None => Seq::empty(),
    }) + (if info.taxon_qid is Some && info.reference_qid is Some {
        seq![
            spec_occurrence_line("LAST"@, info.taxon_qid.unwrap()@, info.reference_qid.unwrap()@),
        ]
    } else {
        Seq::empty()
    })
}

fn quoted_statement(property_prefix: &str, value: &str) -> (r: String)
    ensures
        r@ == property_prefix@ + value@ + "\""@,
{
    let mut s = String::new();
    s.append(property_prefix);
    s.append(value);
    s.append("\"");
    proof {
        assert(s@ =~= property_prefix@ + value@ + "\""@);
    }
    s
}

/// Renders the creation block of a chemical item for a record whose chemical
/// does not exist yet.
#[verifier::rlimit(60)]
pub fn build_chemical_commands(data: &EnrichedData, info: &WikidataInfo) -> (commands: Vec<String>)
    ensures
        str_view_seq(commands@) == spec_chemical_commands(*data, *info),
{
    let mut commands: Vec<String> = Vec::new();
    commands.push(owned("CREATE"));
    commands.push(quoted_statement("LAST\tLen\t\"", data.chemical_entity_name.as_str()));
    commands.push(owned("LAST\tDen\t\"type of chemical entity\""));
    commands.push(owned("LAST\tP31\tQ113145171"));
    if let Some(smiles) = &data.canonical_smiles {
        commands.push(quoted_statement("LAST\tP233\t\"", smiles.as_str()));
    }
    if let Some(smiles) = &data.isomeric_smiles {
        commands.push(quoted_statement("LAST\tP2017\t\"", smiles.as_str()));
    }
    if let Some(inchi) = &data.inchi {
        commands.push(quoted_statement("LAST\tP234\t\"", inchi.as_str()));
    }
    if let Some(inchikey) = &data.inchikey {
        commands.push(quoted_statement("LAST\tP235\t\"", inchikey.as_str()));
    }
    if let Some(formula) = &data.molecular_formula {
        commands.push(quoted_statement("LAST\tP274\t\"", formula.as_str()));
    }
    if info.taxon_qid.is_some() && info.reference_qid.is_some() {
        commands.push(
            occurrence_line(
                "LAST",
                info.taxon_qid.as_ref().unwrap().as_str(),
                info.reference_qid.as_ref().unwrap().as_str(),
            ),
        );
    }
    proof {
        assert(str_view_seq(commands@) =~= spec_chemical_commands(*data, *info));
    }
    commands
}

/// The run state of the generator: the reference identifiers (lower-cased)
/// whose creation block has already been emitted in this batch.
#[derive(Debug)]
pub struct RunState {
    pub emitted_dois: Vec<String>,
}

impl RunState {
    /// The set of already-emitted keys.
    pub open spec fn view(&self) -> Set<Seq<char>> {
        Set::new(
            |x: Seq<char>|
                exists|i: int| 0 <= i < self.emitted_dois@.len() && self.emitted_dois@[i]@ == x,
        )
    }

    /// A fresh run: nothing emitted yet.
    pub fn new() -> (s: Self)
        ensures
            s.view() == Set::<Seq<char>>::empty(),
    {
        let s = RunState { emitted_dois: Vec::new() };
        proof {
            assert(s.view() =~= Set::<Seq<char>>::empty());
        }
        s
    }

    /// Whether a creation block for this key was already emitted.
    pub fn contains(&self, key: &str) -> (r: bool)
        ensures
            r == self.view().contains(key@),
    {
        let mut i: usize = 0;
        while i < self.emitted_dois.len()
            invariant
                0 <= i <= self.emitted_dois@.len(),
                forall|j: int| 0 <= j < i ==> self.emitted_dois@[j]@ != key@,
            decreases self.emitted_dois@.len() - i,
        {
            if crate::text::str_eq(self.emitted_dois[i].as_str(), key) {
                return true;
            }
            i = i + 1;
        }
        false
    }

    /// Marks a key emitted; marking an already-present key changes nothing.
    pub fn mark(&mut self, key: String) -> (fresh: bool)
        ensures
            fresh == !old(self).view().contains(key@),
            final(self).view() == old(self).view().insert(key@),
    {
        let fresh = !self.contains(key.as_str());
        if fresh {
            self.insert(key);
        } else {
            proof {
                assert(old(self).view() =~= old(self).view().insert(key@));
            }
        }
        fresh
    }

    /// Records that a creation block for this key has been emitted.
    pub fn insert(&mut self, key: String)
        ensures
            final(self).view() == old(self).view().insert(key@),
    {
        self.emitted_dois.push(key);
        proof {
            assert forall|x: Seq<char>|
                final(self).view().contains(x) <==> old(self).view().insert(key@).contains(x) by {
                if old(self).view().insert(key@).contains(x) {
                    if x == key@ {
                        assert(final(self).emitted_dois@[final(self).emitted_dois@.len() - 1]@
                            == x);
                    } else {
                        let i = choose|i: int|
                            0 <= i < old(self).emitted_dois@.len() && old(self).emitted_dois@[i]@
                                == x;
                        assert(final(self).emitted_dois@[i]@ == x);
                    }
                }
            }
            assert(final(self).view() =~= old(self).view().insert(key@));
        }
    }
}

/// Whether this record emits a reference creation block: its reference does
/// not exist, metadata for it does, and no earlier record of the run already
/// created the same identifier.
pub open spec fn spec_ref_block_emitted(info: WikidataInfo, st: Set<Seq<char>>) -> bool {
    info.reference_qid is None && info.reference_metadata is Some && !st.contains(
        lower_of(info.reference_metadata.unwrap().doi@),
    )
}

/// The run state after a record: its reference key is marked emitted whenever
/// a creation block for it was either emitted now or already present.
pub open spec fn spec_next_state(info: WikidataInfo, st: Set<Seq<char>>) -> Set<Seq<char>> {
    if info.reference_qid is None && info.reference_metadata is Some {
        st.insert(lower_of(info.reference_metadata.unwrap().doi@))
    } else {
        st
    }
}

/// Whether this record emits a standalone claim line: the claim does not
/// exist yet and chemical, taxon and reference all already have identifiers.
pub open spec fn spec_standalone_occurrence(info: WikidataInfo) -> bool {
    !info.occurrence_exists && info.chemical_qid is Some && info.taxon_qid is Some
        && info.reference_qid is Some
}

/// All command lines of one record, in order: the deduplicated reference
/// creation block, the chemical creation block, then the standalone claim
/// line — each only when the record calls for it.
pub open spec fn spec_record_lines(
    data: EnrichedData,
    info: WikidataInfo,
    st: Set<Seq<char>>,
) -> Seq<Seq<char>> {
    (if spec_ref_block_emitted(info, st) {
        spec_reference_commands(info.reference_metadata.unwrap())
    } else {
        Seq::empty()
    }) + (if info.chemical_qid is None {
        spec_chemical_commands(data, info)
    } else {
        Seq::empty()
    }) + (if spec_standalone_occurrence(info) {
        seq![
            spec_occurrence_line(
                info.chemical_qid.unwrap()@,
                info.taxon_qid.unwrap()@,
                info.reference_qid.unwrap()@,
            ),
        ]
    } else {
        Seq::empty()
    })
}

/// Renders the command lines of one record and advances the run state.
pub fn generate_record_commands(
    data: &EnrichedData,
    info: &WikidataInfo,
    state: &mut RunState,
) -> (commands: Vec<String>)
    ensures
        str_view_seq(commands@) == spec_record_lines(*data, *info, old(state).view()),
        final(state).view() == spec_next_state(*info, old(state).view()),
{
    let mut commands: Vec<String> = Vec::new();

    if info.reference_qid.is_none() {
        if let Some(metadata) = &info.reference_metadata {
            let key = to_lowercase(metadata.doi.as_str());
            let fresh = state.mark(key);
            if fresh {
                let mut block = build_reference_commands(metadata);
                let ghost pre = commands@;
                let ghost block_view = block@;
                commands.append(&mut block);
                proof {
                    crate::text::lemma_str_view_seq_add(pre, block_view);
                }
            }
        }
    }

    if info.chemical_qid.is_none() {
        let mut block = build_chemical_commands(data, info);
        let ghost pre = commands@;
        let ghost block_view = block@;
        commands.append(&mut block);
        proof {
            crate::text::lemma_str_view_seq_add(pre, block_view);
        }
    }

    if !info.occurrence_exists && info.chemical_qid.is_some() {
        match (&info.chemical_qid, &info.taxon_qid, &info.reference_qid) {
            (Some(chem_qid), Some(tax_qid), Some(ref_qid)) => {
                commands.push(
                    occurrence_line(chem_qid.as_str(), tax_qid.as_str(), ref_qid.as_str()),
                );
            },
            _ => {},
        }
    }

    proof {
        assert(str_view_seq(commands@) =~= spec_record_lines(*data, *info, old(state).view()));
    }
    commands
}

/// All command lines of a batch, processed strictly in input order with the
/// run state threaded through.
pub open spec fn spec_batch_lines(
    records: Seq<(EnrichedData, WikidataInfo)>,
    st: Set<Seq<char>>,
) -> Seq<Seq<char>>
    decreases records.len(),
{
    if records.len() == 0 {
        Seq::empty()
    } else {
        spec_record_lines(records[0].0, records[0].1, st) + spec_batch_lines(
            records.drop_first(),
            spec_next_state(records[0].1, st),
        )
    }
}

/// Generates the QuickStatements command lines for the provided records, in
/// input order, starting from a fresh run state.
pub fn generate_quickstatements(records: &Vec<(EnrichedData, WikidataInfo)>) -> (lines: Vec<
    String,
>)
    ensures
        str_view_seq(lines@) == spec_batch_lines(records@, Set::empty()),
{
    let mut state = RunState::new();
    let mut lines: Vec<String> = Vec::new();
    let mut i: usize = 0;
    proof {
        assert(records@.skip(0) =~= records@);
        assert(str_view_seq(lines@) =~= Seq::<Seq<char>>::empty());
    }
    while i < records.len()
        invariant
            0 <= i <= records@.len(),
            str_view_seq(lines@) + spec_batch_lines(records@.skip(i as int), state.view())
                == spec_batch_lines(records@, Set::empty()),
        decreases records@.len() - i,
    {
        let ghost pre_lines = lines@;
        let record = &records[i];
        let mut cmds = generate_record_commands(&record.0, &record.1, &mut state);
        let ghost cmds_view = cmds@;
        lines.append(&mut cmds);
        proof {
            let rest = records@.skip(i as int);
            assert(rest[0] == records@[i as int]);
            assert(rest.drop_first() =~= records@.skip(i as int + 1));
            crate::text::lemma_str_view_seq_add(pre_lines, cmds_view);
            assert(str_view_seq(lines@) + spec_batch_lines(
                records@.skip(i as int + 1),
                state.view(),
            ) =~= spec_batch_lines(records@, Set::<Seq<char>>::empty()));
        }
        i = i + 1;
    }
    proof {
        assert(records@.skip(records@.len() as int) =~= Seq::<(EnrichedData, WikidataInfo)>::empty());
        assert(str_view_seq(lines@) =~= spec_batch_lines(records@, Set::empty()));
    }
    lines
}

/// Law: a record whose chemical, taxon and reference all already exist and
/// whose claim does not yields exactly one command — the standalone claim
/// line citing the three existing identifiers — and no creation block,
/// whatever the run state.
pub proof fn lemma_single_claim_line(
    data: EnrichedData,
    info: WikidataInfo,
    st: Set<Seq<char>>,
)
    requires
        info.chemical_qid is Some,
        info.taxon_qid is Some,
        info.reference_qid is Some,
        !info.occurrence_exists,
    ensures
        spec_record_lines(data, info, st) == seq![
            spec_occurrence_line(
                info.chemical_qid.unwrap()@,
                info.taxon_qid.unwrap()@,
                info.reference_qid.unwrap()@,
            ),
        ],
{
    assert(spec_record_lines(data, info, st) =~= seq![
        spec_occurrence_line(
            info.chemical_qid.unwrap()@,
            info.taxon_qid.unwrap()@,
            info.reference_qid.unwrap()@,
        ),
    ]);
}

/// Law: for a record whose claim already exists, nothing at all is emitted —
/// in particular no claim line — whatever the run state.  Well-formed facts
/// record an existing claim only when all three identifiers exist, so neither
/// creation block fires either.
pub proof fn lemma_existing_claim_emits_nothing(
    data: EnrichedData,
    info: WikidataInfo,
    st: Set<Seq<char>>,
)
    requires
        info.wf(),
        info.occurrence_exists,
    ensures
        spec_record_lines(data, info, st) == Seq::<Seq<char>>::empty(),
{
    assert(spec_record_lines(data, info, st) =~= Seq::<Seq<char>>::empty());
}

/// How many reference creation blocks a batch emits.
pub open spec fn spec_ref_blocks_count(
    records: Seq<(EnrichedData, WikidataInfo)>,
    st: Set<Seq<char>>,
) -> int
    decreases records.len(),
{
    if records.len() == 0 {
        0
    } else {
        (if spec_ref_block_emitted(records[0].1, st) {
            1int
        } else {
            0int
        }) + spec_ref_blocks_count(records.drop_first(), spec_next_state(records[0].1, st))
    }
}

proof fn lemma_no_further_reference_blocks(
    records: Seq<(EnrichedData, WikidataInfo)>,
    d: Seq<char>,
    st: Set<Seq<char>>,
)
    requires
        st.contains(lower_of(d)),
        forall|i: int|
            0 <= i < records.len() ==> (#[trigger] records[i].1).reference_qid is None
                && records[i].1.reference_metadata is Some
                && records[i].1.reference_metadata.unwrap().doi@ == d,
    ensures
        spec_ref_blocks_count(records, st) == 0,
    decreases records.len(),
{
    if records.len() > 0 {
        assert(!spec_ref_block_emitted(records[0].1, st));
        assert(spec_next_state(records[0].1, st) == st.insert(lower_of(d)));
        assert(st.insert(lower_of(d)) =~= st);
        lemma_no_further_reference_blocks(records.drop_first(), d, st);
    }
}

/// Law (reference deduplication): in a batch of records that all share one
/// reference identifier, all lack an existing reference item and all carry
/// metadata for it, exactly one reference creation block is emitted across
/// the whole run.
pub proof fn lemma_reference_created_once(
    records: Seq<(EnrichedData, WikidataInfo)>,
    d: Seq<char>,
)
    requires
        records.len() > 0,
        forall|i: int|
            0 <= i < records.len() ==> (#[trigger] records[i].1).reference_qid is None
                && records[i].1.reference_metadata is Some
                && records[i].1.reference_metadata.unwrap().doi@ == d,
    ensures
        spec_ref_blocks_count(records, Set::empty()) == 1,
{
    let st = Set::<Seq<char>>::empty();
    assert(spec_ref_block_emitted(records[0].1, st));
    let st1 = spec_next_state(records[0].1, st);
    assert(st1.contains(lower_of(d)));
    lemma_no_further_reference_blocks(records.drop_first(), d, st1);
}

proof fn lemma_saturated_batch_is_empty(
    records: Seq<(EnrichedData, WikidataInfo)>,
    d: Seq<char>,
    st: Set<Seq<char>>,
)
    requires
        st.contains(lower_of(d)),
        forall|i: int|
            0 <= i < records.len() ==> (#[trigger] records[i].1).chemical_qid is Some
                && records[i].1.reference_qid is None && records[i].1.reference_metadata is Some
                && records[i].1.reference_metadata.unwrap().doi@ == d,
    ensures
        spec_batch_lines(records, st) == Seq::<Seq<char>>::empty(),
    decreases records.len(),
{
    if records.len() > 0 {
        assert(!spec_ref_block_emitted(records[0].1, st));
        assert(spec_record_lines(records[0].0, records[0].1, st) =~= Seq::<Seq<char>>::empty());
        assert(spec_next_state(records[0].1, st) =~= st);
        lemma_saturated_batch_is_empty(records.drop_first(), d, st);
        assert(spec_batch_lines(records, st) =~= Seq::<Seq<char>>::empty());
    }
}

/// Law (reference deduplication, at the level of the emitted lines): in a
/// batch of records that all share one missing reference, all carry metadata
/// for it and all have an existing chemical, the whole output is exactly one
/// reference creation block — the first record's — and nothing else.
pub proof fn lemma_shared_reference_batch_lines(
    records: Seq<(EnrichedData, WikidataInfo)>,
    d: Seq<char>,
)
    requires
        records.len() > 0,
        forall|i: int|
            0 <= i < records.len() ==> (#[trigger] records[i].1).chemical_qid is Some
                && records[i].1.reference_qid is None && records[i].1.reference_metadata is Some
                && records[i].1.reference_metadata.unwrap().doi@ == d,
    ensures
        spec_batch_lines(records, Set::empty()) == spec_reference_commands(
            records[0].1.reference_metadata.unwrap(),
        ),
{
    let st = Set::<Seq<char>>::empty();
    assert(spec_ref_block_emitted(records[0].1, st));
    let m = records[0].1.reference_metadata.unwrap();
    assert(spec_record_lines(records[0].0, records[0].1, st) =~= spec_reference_commands(m));
    let st1 = spec_next_state(records[0].1, st);
    assert(st1.contains(lower_of(d)));
    lemma_saturated_batch_is_empty(records.drop_first(), d, st1);
    assert(spec_batch_lines(records, st) =~= spec_reference_commands(m));
}

} // verus!
