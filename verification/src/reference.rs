//! Bibliographic reference metadata: publication dates, language and work
//! type mapping, and assembly of the metadata record that a reference
//! creation block is rendered from.
use crate::text::{
    dec_str, dec_str_pad, dec_str_signed_pad, fmt_i64_pad, fmt_u64, fmt_u64_pad, lower_of, owned,
    str_eq, to_lowercase, to_uppercase, trim_owned, trim_slice, trim_spec, upper_of,
};
use vstd::prelude::*;

verus! {

/// Knowledge-base identifier of the bibliographic collaborator that metadata
/// statements are sourced to.
pub const CROSSREF_QID: &'static str = "Q5188229";

/// A publication date of year, optional month, optional day precision.
#[derive(Debug, Clone, Copy, PartialEq, Eq)]
pub struct ReferenceDate {
    pub year: i32,
    pub month: Option<u32>,
    pub day: Option<u32>,
}

/// A full calendar date, used for the day the metadata was retrieved.
#[derive(Debug, Clone, Copy, PartialEq, Eq)]
pub struct CalendarDate {
    pub year: i32,
    pub month: u32,
    pub day: u32,
}

/// One author of a reference, with its 1-based position in the author list.
#[derive(Debug, Clone, PartialEq, Eq)]
pub struct ReferenceAuthor {
    pub full_name: String,
    pub ordinal: usize,
}

/// Everything needed to create a reference item in the knowledge base.
#[derive(Debug, Clone)]
pub struct ReferenceMetadata {
    pub doi: String,
    pub title: String,
    pub title_language: Option<String>,
    pub language_qid: Option<String>,
    pub entity_type_qid: String,
    pub publication_date: Option<ReferenceDate>,
    pub volume: Option<String>,
    pub issue: Option<String>,
    pub container_title: Option<String>,
    pub issn: Option<String>,
    pub journal_qid: Option<String>,
    pub authors: Vec<ReferenceAuthor>,
    pub retrieved_on: CalendarDate,
}

/// The date parsed out of a date-parts row: year, then optional month and
/// day, each reinterpreted as an unsigned value the way a plain integer cast
/// does.
pub open spec fn spec_date_from_parts(parts: Seq<i32>) -> Option<ReferenceDate> {
    if parts.len() == 0 {
        None
    } else {
        Some(
            ReferenceDate {
                year: parts[0],
                month: if parts.len() >= 2 {
                    Some(parts[1] as u32)
                } else {
                    None
                },
                day: if parts.len() >= 3 {
                    Some(parts[2] as u32)
                } else {
                    None
                },
            },
        )
    }
}

impl ReferenceDate {
    /// Reads a date from a `date-parts` row: `[year]`, `[year, month]` or
    /// `[year, month, day]`; an empty row is no date.
    pub fn from_parts(parts: &Vec<i32>) -> (r: Option<Self>)
        ensures
            r == spec_date_from_parts(parts@),
    {
        if parts.len() == 0 {
            return None;
        }
        let year = parts[0];
        let month: Option<u32> = if parts.len() >= 2 {
            Some(#[verifier::truncate] (parts[1] as u32))
        } else {
            None
        };
        let day: Option<u32> = if parts.len() >= 3 {
            Some(#[verifier::truncate] (parts[2] as u32))
        } else {
            None
        };
        Some(Self { year, month, day })
    }

    /// The numeric precision code of the date: day, month and year precision
    /// in decreasing order of detail.
    pub open spec fn spec_precision(&self) -> u8 {
        if self.day is Some {
            11
        } else if self.month is Some {
            10
        } else {
            9
        }
    }

    /// Precision code of this date: 11 when a day is present, 10 when only a
    /// month is, 9 otherwise.
    pub fn precision(&self) -> (p: u8)
        ensures
            p == self.spec_precision(),
    {
        if self.day.is_some() {
            11
        } else if self.month.is_some() {
            10
        } else {
            9
        }
    }

    /// The rendered time value: `+YYYY-MM-DDT00:00:00Z/P` with zero-padded
    /// fields, absent month and day rendered as `01`, and `P` the precision
    /// code.
    pub open spec fn spec_qs_time(&self) -> Seq<char> {
        "+"@ + dec_str_signed_pad(self.year as int, 4) + "-"@ + dec_str_pad(
            (match self.month {
                Some(m) => m,
                None => 1u32,
            }) as nat,
            2,
        ) + "-"@ + dec_str_pad(
            (match self.day {
                Some(d) => d,
                None => 1u32,
            }) as nat,
            2,
        ) + "T00:00:00Z/"@ + dec_str(self.spec_precision() as nat)
    }

    /// Renders the date as a batch-command time value.
    pub fn to_quickstatements_time(&self) -> (s: String)
        ensures
            s@ == self.spec_qs_time(),
    {
        let month: u32 = match self.month {
            Some(m) => m,
            None => 1,
        };
        let day: u32 = match self.day {
            Some(d) => d,
            None => 1,
        };
        let mut s = String::new();
        s.append("+");
        let y = fmt_i64_pad(self.year as i64, 4);
        s.append(y.as_str());
        s.append("-");
        let m = fmt_u64_pad(month as u64, 2);
        s.append(m.as_str());
        s.append("-");
        let d = fmt_u64_pad(day as u64, 2);
        s.append(d.as_str());
        s.append("T00:00:00Z/");
        let p = fmt_u64(self.precision() as u64);
        s.append(p.as_str());
        proof {
            assert(s@ =~= self.spec_qs_time());
        }
        s
    }
}

/// The rendered retrieval date: a full calendar date at day precision.
pub open spec fn spec_retrieved_date(date: CalendarDate) -> Seq<char> {
    "+"@ + dec_str_signed_pad(date.year as int, 4) + "-"@ + dec_str_pad(date.month as nat, 2)
        + "-"@ + dec_str_pad(date.day as nat, 2) + "T00:00:00Z/11"@
}

/// Renders the day the metadata was retrieved as a day-precision time value.
pub fn format_retrieved_date(date: &CalendarDate) -> (s: String)
    ensures
        s@ == spec_retrieved_date(*date),
{
    let mut s = String::new();
    s.append("+");
    let y = fmt_i64_pad(date.year as i64, 4);
    s.append(y.as_str());
    s.append("-");
    let m = fmt_u64_pad(date.month as u64, 2);
    s.append(m.as_str());
    s.append("-");
    let d = fmt_u64_pad(date.day as u64, 2);
    s.append(d.as_str());
    s.append("T00:00:00Z/11");
    proof {
        assert(s@ =~= spec_retrieved_date(*date));
    }
    s
}

/// Index of the first occurrence of `c` at or after `i`, or the length when
/// `c` does not occur there.
pub open spec fn find_char_from(s: Seq<char>, c: char, i: int) -> int
    recommends
        0 <= i <= s.len(),
    decreases s.len() - i when 0 <= i <= s.len()
{
    if i >= s.len() {
        i
    } else if s[i] == c {
        i
    } else {
        find_char_from(s, c, i + 1)
    }
}

proof fn lemma_find_char_from(s: Seq<char>, c: char, i: int)
    requires
        0 <= i <= s.len(),
    ensures
        i <= find_char_from(s, c, i) <= s.len(),
    decreases s.len() - i,
{
    if i < s.len() && s[i] != c {
        lemma_find_char_from(s, c, i + 1);
    }
}

/// The normalized language code: the lower-cased, trimmed code cut at the
/// first `-`; `None` when nothing is left.
pub open spec fn spec_normalize_language(code: Seq<char>) -> Option<Seq<char>> {
    let t = lower_of(trim_spec(code));
    if t.len() == 0 {
        None
    } else {
        Some(t.subrange(0, find_char_from(t, '-', 0)))
    }
}

/// Normalizes a bibliographic language code: trims, lower-cases, and keeps
/// only the primary subtag before any `-`.
pub fn normalize_language_code(code: &str) -> (r: Option<String>)
    ensures
        r is Some <==> spec_normalize_language(code@) is Some,
        r is Some ==> r.unwrap()@ == spec_normalize_language(code@).unwrap(),
{
    let normalized = to_lowercase(trim_slice(code));
    let n = normalized.as_str().unicode_len();
    if n == 0 {
        return None;
    }
    let mut i: usize = 0;
    while i < n && normalized.as_str().get_char(i) != '-'
        invariant
            0 <= i <= n,
            n == normalized@.len(),
            find_char_from(normalized@, '-', 0) == find_char_from(normalized@, '-', i as int),
        decreases n - i,
    {
        i = i + 1;
    }
    let prefix = normalized.as_str().substring_char(0, i);
    Some(owned(prefix))
}

/// The knowledge-base item for a handful of common language codes.
pub open spec fn spec_language_qid(code: Seq<char>) -> Option<Seq<char>> {
    if code == "en"@ {
        Some("Q1860"@)
    } else if code == "es"@ {
        Some("Q1321"@)
    } else if code == "fr"@ {
        Some("Q150"@)
    } else if code == "de"@ {
        Some("Q188"@)
    } else if code == "pt"@ {
        Some("Q5146"@)
    } else if code == "it"@ {
        Some("Q652"@)
    } else if code == "ru"@ {
        Some("Q7737"@)
    } else if code == "zh"@ {
        Some("Q7850"@)
    } else if code == "ja"@ {
        Some("Q5287"@)
    } else if code == "pl"@ {
        Some("Q809"@)
    } else if code == "ar"@ {
        Some("Q13955"@)
    } else {
        None
    }
}

/// Helper view for an optional string slice.
pub open spec fn option_str_view(o: Option<&str>) -> Option<Seq<char>> {
    match o {
        Some(s) => Some(s@),
        None => None,
    }
}

/// Maps a normalized language code to the knowledge-base item of the
/// language; unknown codes map to nothing.
pub fn language_code_to_qid(code: &str) -> (r: Option<&'static str>)
    ensures
        option_str_view(r) == spec_language_qid(code@),
{
    if str_eq(code, "en") {
        Some("Q1860")
    } else if str_eq(code, "es") {
        Some("Q1321")
    } else if str_eq(code, "fr") {
        Some("Q150")
    } else if str_eq(code, "de") {
        Some("Q188")
    } else if str_eq(code, "pt") {
        Some("Q5146")
    } else if str_eq(code, "it") {
        Some("Q652")
    } else if str_eq(code, "ru") {
        Some("Q7737")
    } else if str_eq(code, "zh") {
        Some("Q7850")
    } else if str_eq(code, "ja") {
        Some("Q5287")
    } else if str_eq(code, "pl") {
        Some("Q809")
    } else if str_eq(code, "ar") {
        Some("Q13955")
    } else {
        None
    }
}

/// The knowledge-base class for a bibliographic work type; anything
/// unrecognized counts as a journal article.
pub open spec fn spec_work_type_qid(work_type: Option<Seq<char>>) -> Seq<char> {
    match work_type {
        None => "Q13442814"@,
        Some(w) => {
            if w == "journal-article"@ {
                "Q13442814"@
            } else if w == "book-chapter"@ || w == "chapter"@ {
                "Q1980247"@
            } else if w == "book"@ {
                "Q571"@
            } else if w == "reference-entry"@ {
                "Q17329259"@
            } else if w == "report"@ {
                "Q10870555"@
            } else if w == "dataset"@ {
                "Q1172284"@
            } else if w == "dissertation"@ || w == "thesis"@ {
                "Q1266946"@
            } else if w == "proceedings-article"@ {
                "Q23927052"@
            } else {
                "Q13442814"@
            }
        },
    }
}

/// Maps a bibliographic work type to the knowledge-base class the created
/// reference is an instance of.
pub fn map_work_type_to_qid(work_type: Option<&str>) -> (r: &'static str)
    ensures
        r@ == spec_work_type_qid(option_str_view(work_type)),
{
    match work_type {
        None => "Q13442814",
        Some(w) => {
            if str_eq(w, "journal-article") {
                "Q13442814"
            } else if str_eq(w, "book-chapter") || str_eq(w, "chapter") {
                "Q1980247"
            } else if str_eq(w, "book") {
                "Q571"
            } else if str_eq(w, "reference-entry") {
                "Q17329259"
            } else if str_eq(w, "report") {
                "Q10870555"
            } else if str_eq(w, "dataset") {
                "Q1172284"
            } else if str_eq(w, "dissertation") || str_eq(w, "thesis") {
                "Q1266946"
            } else if str_eq(w, "proceedings-article") {
                "Q23927052"
            } else {
                "Q13442814"
            }
        },
    }
}

/// The cache key of a reference identifier: the trimmed, lower-cased form.
pub fn doi_cache_key(doi: &str) -> (r: String)
    ensures
        r@ == lower_of(trim_spec(doi@)),
{
    to_lowercase(trim_slice(doi))
}

/// One author record of the bibliographic collaborator's payload.
#[derive(Debug, Clone)]
pub struct CrossrefAuthor {
    pub given: Option<String>,
    pub family: Option<String>,
    pub name: Option<String>,
}

/// The fields of the bibliographic collaborator's payload that reference
/// creation reads, already decoded into plain values.
#[derive(Debug, Clone)]
pub struct CrossrefWork {
    pub title: Option<Vec<String>>,
    pub work_type: Option<String>,
    pub language: Option<String>,
    pub author: Option<Vec<CrossrefAuthor>>,
    pub issued: Option<Vec<Vec<i32>>>,
    pub container_title: Option<Vec<String>>,
    pub volume: Option<String>,
    pub issue: Option<String>,
    pub issn_list: Option<Vec<String>>,
}

/// The first string at or after `i` whose trimmed form is non-empty.
pub open spec fn first_nonblank_from(ts: Seq<String>, i: int) -> Option<Seq<char>>
    recommends
        0 <= i <= ts.len(),
    decreases ts.len() - i when 0 <= i <= ts.len()
{
    if i >= ts.len() {
        None
    } else if trim_spec(ts[i]@).len() > 0 {
        Some(ts[i]@)
    } else {
        first_nonblank_from(ts, i + 1)
    }
}

/// Picks the first entry that is more than whitespace.
pub fn first_nonblank(ts: &Vec<String>) -> (r: Option<String>)
    ensures
        r is Some <==> first_nonblank_from(ts@, 0) is Some,
        r is Some ==> r.unwrap()@ == first_nonblank_from(ts@, 0).unwrap(),
{
    let mut i: usize = 0;
    while i < ts.len()
        invariant
            0 <= i <= ts@.len(),
            first_nonblank_from(ts@, 0) == first_nonblank_from(ts@, i as int),
        decreases ts@.len() - i,
    {
        if trim_slice(ts[i].as_str()).unicode_len() > 0 {
            return Some(ts[i].clone());
        }
        i = i + 1;
    }
    None
}

/// The name an author record contributes: the literal `name` field when
/// present, otherwise the non-blank `given` and `family` parts joined by a
/// space; nothing when no part remains.
pub open spec fn spec_author_pieces(a: CrossrefAuthor) -> Option<Seq<char>> {
    match a.name {
        Some(n) => Some(n@),
        None => {
            let g_ok = a.given is Some && trim_spec(a.given.unwrap()@).len() > 0;
            let f_ok = a.family is Some && trim_spec(a.family.unwrap()@).len() > 0;
            if g_ok && f_ok {
                Some(a.given.unwrap()@ + " "@ + a.family.unwrap()@)
            } else if g_ok {
                Some(a.given.unwrap()@)
            } else if f_ok {
                Some(a.family.unwrap()@)
            } else {
                None
            }
        },
    }
}

/// The trimmed author name that is kept, or nothing when it trims away.
pub open spec fn spec_author_entry(a: CrossrefAuthor) -> Option<Seq<char>> {
    match spec_author_pieces(a) {
        None => None,
        Some(full) => {
            if trim_spec(full).len() == 0 {
                None
            } else {
                Some(trim_spec(full))
            }
        },
    }
}

/// The kept author names starting at `i`, paired with their 1-based ordinals
/// starting at `ord`; records without a usable name are skipped and consume
/// no ordinal.
pub open spec fn authors_entries_from(s: Seq<CrossrefAuthor>, i: int, ord: int) -> Seq<
    (Seq<char>, int),
>
    recommends
        0 <= i <= s.len(),
    decreases s.len() - i when 0 <= i <= s.len()
{
    if i >= s.len() {
        Seq::empty()
    } else {
        match spec_author_entry(s[i]) {
            Some(nm) => seq![(nm, ord)] + authors_entries_from(s, i + 1, ord + 1),
            None => authors_entries_from(s, i + 1, ord),
        }
    }
}

/// Name and ordinal carried by each built author.
pub open spec fn author_views(v: Seq<ReferenceAuthor>) -> Seq<(Seq<char>, int)> {
    v.map_values(|a: ReferenceAuthor| (a.full_name@, a.ordinal as int))
}

fn author_full_name(a: &CrossrefAuthor) -> (r: Option<String>)
    ensures
        r is Some <==> spec_author_pieces(*a) is Some,
        r is Some ==> r.unwrap()@ == spec_author_pieces(*a).unwrap(),
{
    match &a.name {
        Some(n) => Some(n.clone()),
        None => {
            let g_ok = match &a.given {
                Some(g) => trim_slice(g.as_str()).unicode_len() > 0,
                None => false,
            };
            let f_ok = match &a.family {
                Some(f) => trim_slice(f.as_str()).unicode_len() > 0,
                None => false,
            };
            if g_ok && f_ok {
                let mut s = a.given.as_ref().unwrap().clone();
                s.append(" ");
                s.append(a.family.as_ref().unwrap().as_str());
                Some(s)
            } else if g_ok {
                Some(a.given.as_ref().unwrap().clone())
            } else if f_ok {
                Some(a.family.as_ref().unwrap().clone())
            } else {
                None
            }
        },
    }
}

/// Builds the author list of a reference: each usable name, trimmed, with its
/// 1-based position among the kept names.
pub fn build_authors(authors: &Vec<CrossrefAuthor>) -> (out: Vec<ReferenceAuthor>)
    ensures
        author_views(out@) == authors_entries_from(authors@, 0, 1),
{
    let mut out: Vec<ReferenceAuthor> = Vec::new();
    let mut i: usize = 0;
    proof {
        assert(author_views(out@) + authors_entries_from(authors@, 0, 1) =~= authors_entries_from(
            authors@,
            0,
            1,
        ));
    }
    while i < authors.len()
        invariant
            0 <= i <= authors@.len(),
            out@.len() <= i,
            authors_entries_from(authors@, 0, 1) == author_views(out@) + authors_entries_from(
                authors@,
                i as int,
                out@.len() as int + 1,
            ),
        decreases authors@.len() - i,
    {
        let ghost prev = out@;
        match author_full_name(&authors[i]) {
            None => {},
            Some(full) => {
                let clean = trim_owned(full.as_str());
                if clean.as_str().unicode_len() > 0 {
                    let ordinal = out.len() + 1;
                    out.push(ReferenceAuthor { full_name: clean, ordinal });
                    proof {
                        assert(author_views(out@) =~= author_views(prev) + seq![
                            (out@[out@.len() - 1].full_name@, out@[out@.len() - 1].ordinal as int),
                        ]);
                    }
                }
            },
        }
        i = i + 1;
    }
    proof {
        assert(author_views(out@) + authors_entries_from(authors@, i as int, out@.len() as int + 1)
            =~= author_views(out@));
    }
    out
}

/// The title a reference is created with: the first non-blank title of the
/// payload, or the trimmed reference identifier when none exists.
pub open spec fn spec_title_of(work: CrossrefWork, doi: Seq<char>) -> Seq<char> {
    match work.title {
        Some(ts) => match first_nonblank_from(ts@, 0) {
            Some(t) => t,
            None => trim_spec(doi),
        },
        None => trim_spec(doi),
    }
}

/// The normalized language code of the payload, when one is present.
pub open spec fn spec_language_of(work: CrossrefWork) -> Option<Seq<char>> {
    match work.language {
        Some(l) => spec_normalize_language(l@),
        None => None,
    }
}

/// The knowledge-base item of the payload's language, when one is known.
pub open spec fn spec_language_qid_of(work: CrossrefWork) -> Option<Seq<char>> {
    match spec_language_of(work) {
        Some(code) => spec_language_qid(code),
        None => None,
    }
}

/// The publication date read from the payload's first date-parts row.
pub open spec fn spec_publication_date_of(work: CrossrefWork) -> Option<ReferenceDate> {
    match work.issued {
        Some(rows) => {
            if rows@.len() == 0 {
                None
            } else {
                spec_date_from_parts(rows@[0]@)
            }
        },
        None => None,
    }
}

/// The first non-blank container (journal) title of the payload.
pub open spec fn spec_container_of(work: CrossrefWork) -> Option<Seq<char>> {
    match work.container_title {
        Some(ts) => first_nonblank_from(ts@, 0),
        None => None,
    }
}

/// The primary ISSN: the first listed one, trimmed, when it is non-empty.
pub open spec fn spec_issn_of(work: CrossrefWork) -> Option<Seq<char>> {
    match work.issn_list {
        Some(l) => {
            if l@.len() == 0 {
                None
            } else if trim_spec(l@[0]@).len() == 0 {
                None
            } else {
                Some(trim_spec(l@[0]@))
            }
        },
        None => None,
    }
}

/// The author records of the payload, an empty list when absent.
pub open spec fn spec_authors_of(work: CrossrefWork) -> Seq<CrossrefAuthor> {
    match work.author {
        Some(a) => a@,
        None => Seq::empty(),
    }
}

/// Assembles the metadata a reference item is created from, out of the
/// bibliographic collaborator's decoded payload.  The journal item is left
/// unresolved; the resolver fills it in separately.
pub fn build_reference_metadata(doi: &str, work: &CrossrefWork, retrieved_on: &CalendarDate) -> (m:
    ReferenceMetadata)
    ensures
        m.doi@ == upper_of(trim_spec(doi@)),
        m.title@ == spec_title_of(*work, doi@),
        m.title_language is Some <==> spec_language_of(*work) is Some,
        m.title_language is Some ==> m.title_language.unwrap()@ == spec_language_of(
            *work,
        ).unwrap(),
        m.language_qid is Some <==> spec_language_qid_of(*work) is Some,
        m.language_qid is Some ==> m.language_qid.unwrap()@ == spec_language_qid_of(
            *work,
        ).unwrap(),
        m.entity_type_qid@ == spec_work_type_qid(
            match work.work_type {
                Some(w) => Some(w@),
                None => None,
            },
        ),
        m.publication_date == spec_publication_date_of(*work),
        m.volume == work.volume,
        m.issue == work.issue,
        m.container_title is Some <==> spec_container_of(*work) is Some,
        m.container_title is Some ==> m.container_title.unwrap()@ == spec_container_of(
            *work,
        ).unwrap(),
        m.issn is Some <==> spec_issn_of(*work) is Some,
        m.issn is Some ==> m.issn.unwrap()@ == spec_issn_of(*work).unwrap(),
        m.journal_qid is None,
        author_views(m.authors@) == authors_entries_from(spec_authors_of(*work), 0, 1),
        m.retrieved_on == *retrieved_on,
{
    let trimmed = trim_slice(doi);

    let title: String = match &work.title {
        Some(ts) => match first_nonblank(ts) {
            Some(t) => t,
            None => owned(trimmed),
        },
        None => owned(trimmed),
    };

    let title_language: Option<String> = match &work.language {
        Some(l) => normalize_language_code(l.as_str()),
        None => None,
    };

    let language_qid: Option<String> = match &title_language {
        Some(code) => match language_code_to_qid(code.as_str()) {
            Some(q) => Some(owned(q)),
            None => None,
        },
        None => None,
    };

    let entity_type_qid = owned(
        map_work_type_to_qid(
            match &work.work_type {
                Some(w) => Some(w.as_str()),
                None => None,
            },
        ),
    );

    let publication_date: Option<ReferenceDate> = match &work.issued {
        Some(rows) => {
            if rows.len() == 0 {
                None
            } else {
                ReferenceDate::from_parts(&rows[0])
            }
        },
        None => None,
    };

    let volume: Option<String> = match &work.volume {
        Some(v) => Some(v.clone()),
        None => None,
    };
    let issue: Option<String> = match &work.issue {
        Some(v) => Some(v.clone()),
        None => None,
    };

    let container_title: Option<String> = match &work.container_title {
        Some(ts) => first_nonblank(ts),
        None => None,
    };

    let issn: Option<String> = match &work.issn_list {
        Some(l) => {
            if l.len() == 0 {
                None
            } else {
                let t = trim_owned(l[0].as_str());
                if t.as_str().unicode_len() == 0 {
                    None
                } else {
                    Some(t)
                }
            }
        },
        None => None,
    };

    let authors: Vec<ReferenceAuthor> = match &work.author {
        Some(a) => build_authors(a),
        None => {
            let empty: Vec<ReferenceAuthor> = Vec::new();
            proof {
                assert(author_views(empty@) =~= authors_entries_from(Seq::empty(), 0, 1));
            }
            empty
        },
    };

    ReferenceMetadata {
        doi: to_uppercase(trimmed),
        title,
        title_language,
        language_qid,
        entity_type_qid,
        publication_date,
        volume,
        issue,
        container_title,
        issn,
        journal_qid: None,
        authors,
        retrieved_on: *retrieved_on,
    }
}

} // verus!
