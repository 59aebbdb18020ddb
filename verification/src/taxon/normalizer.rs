//! Normalization of verbose taxon labels.
use crate::text::{
    lemma_scan_word, lemma_skip_spaces, owned, scan_word, scan_word_spec, skip_spaces,
    skip_spaces_spec, words, words_from,
};
use vstd::prelude::*;

verus! {

/// The normalized form of a taxon label: its first two whitespace-separated
/// words, joined by a single space (fewer when the label has fewer words).
pub open spec fn normalize_taxon_spec(s: Seq<char>) -> Seq<char> {
    let ws = words(s);
    if ws.len() == 0 {
        Seq::empty()
    } else if ws.len() == 1 {
        ws[0]
    } else {
        ws[0] + " "@ + ws[1]
    }
}

/// Normalizes verbose taxon labels (e.g., truncating authorship info) to the
/// binomial part: the first two words.
pub fn normalize_taxon_name(taxon_name: &str) -> (r: String)
    ensures
        r@ == normalize_taxon_spec(taxon_name@),
{
    let n = taxon_name.unicode_len();
    let a = skip_spaces(taxon_name, 0);
    proof {
        lemma_skip_spaces(taxon_name@, 0);
    }
    if a == n {
        proof {
            assert(words(taxon_name@) =~= Seq::<Seq<char>>::empty());
        }
        return String::new();
    }
    let b = scan_word(taxon_name, a);
    proof {
        lemma_scan_word(taxon_name@, a as int);
    }
    let w1 = taxon_name.substring_char(a, b);
    let c = skip_spaces(taxon_name, b);
    proof {
        lemma_skip_spaces(taxon_name@, b as int);
        // the word list starts with w1 followed by the words after b
        assert(words(taxon_name@) == seq![taxon_name@.subrange(a as int, b as int)] + words_from(
            taxon_name@,
            b as int,
        ));
    }
    if c == n {
        proof {
            assert(words_from(taxon_name@, b as int) =~= Seq::<Seq<char>>::empty());
            assert(words(taxon_name@).len() == 1);
            assert(words(taxon_name@)[0] == w1@);
        }
        return owned(w1);
    }
    let d = scan_word(taxon_name, c);
    proof {
        lemma_scan_word(taxon_name@, c as int);
        assert(words_from(taxon_name@, b as int) == seq![
            taxon_name@.subrange(c as int, d as int),
        ] + words_from(taxon_name@, d as int));
    }
    let w2 = taxon_name.substring_char(c, d);
    let mut r = owned(w1);
    r.append(" ");
    r.append(w2);
    proof {
        let ws = words(taxon_name@);
        assert(ws.len() >= 2);
        assert(ws[0] == w1@);
        assert(ws[1] == w2@);
    }
    r
}

} // verus!
