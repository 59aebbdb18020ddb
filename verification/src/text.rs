//! Character and string helpers shared by the whole crate: whitespace
//! handling, word splitting, decimal rendering and case mapping.
use vstd::prelude::*;

verus! {

/// The Unicode `White_Space` characters, the set that `char::is_whitespace`
/// documents.
pub open spec fn is_space_char(c: char) -> bool {
    c as u32 == 0x20 || (0x09 <= c as u32 && c as u32 <= 0x0d) || c as u32 == 0x85
        || c as u32 == 0xa0 || c as u32 == 0x1680 || (0x2000 <= c as u32 && c as u32 <= 0x200a)
        || c as u32 == 0x2028 || c as u32 == 0x2029 || c as u32 == 0x202f || c as u32 == 0x205f
        || c as u32 == 0x3000
}

pub fn is_space(c: char) -> (b: bool)
    ensures
        b == is_space_char(c),
{
    let u = c as u32;
    u == 0x20 || (0x09 <= u && u <= 0x0d) || u == 0x85 || u == 0xa0 || u == 0x1680 || (0x2000 <= u
        && u <= 0x200a) || u == 0x2028 || u == 0x2029 || u == 0x202f || u == 0x205f || u == 0x3000
}

/// Appends one character.
///
/// Relies on `String::push`, which the standard library documents as
/// appending the given `char` to the end of the string.
#[verifier::external_body]
pub(crate) fn push_char(s: &mut String, c: char)
    ensures
        final(s)@ == old(s)@.push(c),
{
    s.push(c);
}

/// What `str::to_lowercase` returns; the result depends on the characters
/// alone.
pub uninterp spec fn lower_of(s: Seq<char>) -> Seq<char>;

/// Lower-cases a string.
///
/// Relies on `str::to_lowercase`: the result is a pure function of the
/// characters of the input.
#[verifier::external_body]
pub(crate) fn to_lowercase(s: &str) -> (r: String)
    ensures
        r@ == lower_of(s@),
{
    s.to_lowercase()
}

/// What `str::to_uppercase` returns; the result depends on the characters
/// alone.
pub uninterp spec fn upper_of(s: Seq<char>) -> Seq<char>;

/// Upper-cases a string.
///
/// Relies on `str::to_uppercase`: the result is a pure function of the
/// characters of the input.
#[verifier::external_body]
pub(crate) fn to_uppercase(s: &str) -> (r: String)
    ensures
        r@ == upper_of(s@),
{
    s.to_uppercase()
}

/// Character-wise string equality.
pub fn str_eq(a: &str, b: &str) -> (r: bool)
    ensures
        r == (a@ == b@),
{
    let n = a.unicode_len();
    if n != b.unicode_len() {
        return false;
    }
    let mut i: usize = 0;
    while i < n
        invariant
            n == a@.len(),
            n == b@.len(),
            0 <= i <= n,
            forall|j: int| 0 <= j < i ==> a@[j] == b@[j],
        decreases n - i,
    {
        if a.get_char(i) != b.get_char(i) {
            return false;
        }
        i = i + 1;
    }
    proof {
        assert(a@ =~= b@);
    }
    true
}

/// Owned copy of a string slice.
pub fn owned(s: &str) -> (r: String)
    ensures
        r@ == s@,
{
    String::from_str(s)
}

/// Index of the first character at or after `i` that is not whitespace.
pub open spec fn skip_spaces_spec(s: Seq<char>, i: int) -> int
    recommends
        0 <= i <= s.len(),
    decreases s.len() - i when 0 <= i <= s.len()
{
    if i >= s.len() {
        i
    } else if is_space_char(s[i]) {
        skip_spaces_spec(s, i + 1)
    } else {
        i
    }
}

pub proof fn lemma_skip_spaces(s: Seq<char>, i: int)
    requires
        0 <= i <= s.len(),
    ensures
        i <= skip_spaces_spec(s, i) <= s.len(),
        forall|j: int| i <= j < skip_spaces_spec(s, i) ==> is_space_char(s[j]),
        skip_spaces_spec(s, i) < s.len() ==> !is_space_char(s[skip_spaces_spec(s, i)]),
    decreases s.len() - i,
{
    if i < s.len() && is_space_char(s[i]) {
        lemma_skip_spaces(s, i + 1);
    }
}

/// Index of the first character at or after `i` that is whitespace.
pub open spec fn scan_word_spec(s: Seq<char>, i: int) -> int
    recommends
        0 <= i <= s.len(),
    decreases s.len() - i when 0 <= i <= s.len()
{
    if i >= s.len() {
        i
    } else if is_space_char(s[i]) {
        i
    } else {
        scan_word_spec(s, i + 1)
    }
}

pub proof fn lemma_scan_word(s: Seq<char>, i: int)
    requires
        0 <= i <= s.len(),
    ensures
        i <= scan_word_spec(s, i) <= s.len(),
        forall|j: int| i <= j < scan_word_spec(s, i) ==> !is_space_char(s[j]),
        scan_word_spec(s, i) < s.len() ==> is_space_char(s[scan_word_spec(s, i)]),
    decreases s.len() - i,
{
    if i < s.len() && !is_space_char(s[i]) {
        lemma_scan_word(s, i + 1);
    }
}

pub fn skip_spaces(s: &str, i: usize) -> (j: usize)
    requires
        i <= s@.len(),
    ensures
        j == skip_spaces_spec(s@, i as int),
        i <= j <= s@.len(),
    decreases s@.len() - i,
{
    let n = s.unicode_len();
    let mut j: usize = i;
    while j < n && is_space(s.get_char(j))
        invariant
            i <= j <= n,
            n == s@.len(),
            skip_spaces_spec(s@, i as int) == skip_spaces_spec(s@, j as int),
        decreases n - j,
    {
        j = j + 1;
    }
    j
}

pub fn scan_word(s: &str, i: usize) -> (j: usize)
    requires
        i <= s@.len(),
    ensures
        j == scan_word_spec(s@, i as int),
        i <= j <= s@.len(),
    decreases s@.len() - i,
{
    let n = s.unicode_len();
    let mut j: usize = i;
    while j < n && !is_space(s.get_char(j))
        invariant
            i <= j <= n,
            n == s@.len(),
            scan_word_spec(s@, i as int) == scan_word_spec(s@, j as int),
        decreases n - j,
    {
        j = j + 1;
    }
    j
}

/// Index of the last character strictly before `i` that is not whitespace,
/// plus one; `0` when there is none.
pub open spec fn rskip_spaces_spec(s: Seq<char>, i: int) -> int
    recommends
        0 <= i <= s.len(),
    decreases i when 0 <= i <= s.len()
{
    if i <= 0 {
        0
    } else if is_space_char(s[i - 1]) {
        rskip_spaces_spec(s, i - 1)
    } else {
        i
    }
}

pub proof fn lemma_rskip_spaces(s: Seq<char>, i: int)
    requires
        0 <= i <= s.len(),
    ensures
        0 <= rskip_spaces_spec(s, i) <= i,
        forall|j: int| rskip_spaces_spec(s, i) <= j < i ==> is_space_char(s[j]),
        rskip_spaces_spec(s, i) > 0 ==> !is_space_char(s[rskip_spaces_spec(s, i) - 1]),
    decreases i,
{
    if i > 0 && is_space_char(s[i - 1]) {
        lemma_rskip_spaces(s, i - 1);
    }
}

/// The input without leading and trailing whitespace, as `str::trim`
/// describes its result.
pub open spec fn trim_spec(s: Seq<char>) -> Seq<char> {
    let a = skip_spaces_spec(s, 0);
    let b = rskip_spaces_spec(s, s.len() as int);
    if a < b {
        s.subrange(a, b)
    } else {
        Seq::empty()
    }
}

/// Slice of `s` without leading and trailing whitespace.
pub fn trim_slice<'a>(s: &'a str) -> (r: &'a str)
    ensures
        r@ == trim_spec(s@),
{
    let n = s.unicode_len();
    let a = skip_spaces(s, 0);
    let mut b: usize = n;
    while b > a && is_space(s.get_char(b - 1))
        invariant
            a <= b <= n,
            n == s@.len(),
            a == skip_spaces_spec(s@, 0),
            rskip_spaces_spec(s@, n as int) == rskip_spaces_spec(s@, b as int),
        decreases b,
    {
        b = b - 1;
    }
    proof {
        lemma_skip_spaces(s@, 0);
        lemma_rskip_spaces(s@, n as int);
        if b > a {
            // the backward scan stopped on a non-space, so b is the spec cut
            assert(rskip_spaces_spec(s@, b as int) == b);
        } else {
            // everything from a on is whitespace, so the spec cut is at or below a
            assert(b == a);
            lemma_rskip_spaces(s@, a as int);
        }
    }
    if a < b {
        s.substring_char(a, b)
    } else {
        proof {
            reveal_strlit("");
            assert(""@ =~= Seq::<char>::empty());
        }
        ""
    }
}

/// Owned trimmed copy.
pub fn trim_owned(s: &str) -> (r: String)
    ensures
        r@ == trim_spec(s@),
{
    String::from_str(trim_slice(s))
}

/// The whitespace-separated words of `s`, starting at `i`.
pub open spec fn words_from(s: Seq<char>, i: int) -> Seq<Seq<char>>
    recommends
        0 <= i <= s.len(),
    decreases s.len() - i when 0 <= i <= s.len() via words_from_dec
{
    let j = skip_spaces_spec(s, i);
    if j >= s.len() {
        Seq::empty()
    } else {
        seq![s.subrange(j, scan_word_spec(s, j))] + words_from(s, scan_word_spec(s, j))
    }
}

#[via_fn]
proof fn words_from_dec(s: Seq<char>, i: int) {
    lemma_skip_spaces(s, i);
    let j = skip_spaces_spec(s, i);
    if j < s.len() {
        lemma_scan_word(s, j);
        assert(scan_word_spec(s, j) > j);
    }
}

/// The whitespace-separated words of `s`.
pub open spec fn words(s: Seq<char>) -> Seq<Seq<char>> {
    words_from(s, 0)
}

/// The first ten decimal digits as characters.
pub open spec fn dec_digit_char(d: int) -> char {
    if d == 0 {
        '0'
    } else if d == 1 {
        '1'
    } else if d == 2 {
        '2'
    } else if d == 3 {
        '3'
    } else if d == 4 {
        '4'
    } else if d == 5 {
        '5'
    } else if d == 6 {
        '6'
    } else if d == 7 {
        '7'
    } else if d == 8 {
        '8'
    } else {
        '9'
    }
}

/// Decimal digits of `n`, most significant first, without a sign and without
/// leading zeros (except for `n == 0`, which is the single digit `0`).
pub open spec fn dec_str(n: nat) -> Seq<char>
    decreases n,
{
    if n < 10 {
        seq![dec_digit_char(n as int)]
    } else {
        dec_str(n / 10) + seq![dec_digit_char((n % 10) as int)]
    }
}

fn digit_char(d: u64) -> (c: char)
    requires
        d <= 9,
    ensures
        c == dec_digit_char(d as int),
{
    match d {
        0 => '0',
        1 => '1',
        2 => '2',
        3 => '3',
        4 => '4',
        5 => '5',
        6 => '6',
        7 => '7',
        8 => '8',
        _ => '9',
    }
}

/// Renders `n` in decimal.
pub fn fmt_u64(n: u64) -> (s: String)
    ensures
        s@ == dec_str(n as nat),
    decreases n,
{
    if n < 10 {
        let mut s = String::new();
        push_char(&mut s, digit_char(n));
        proof {
            assert(s@ =~= dec_str(n as nat));
        }
        s
    } else {
        let mut s = fmt_u64(n / 10);
        push_char(&mut s, digit_char(n % 10));
        proof {
            assert(s@ =~= dec_str(n as nat));
        }
        s
    }
}

/// `k` zero characters (none when `k <= 0`).
pub open spec fn zeros(k: int) -> Seq<char> {
    Seq::new(if k <= 0 {
        0
    } else {
        k as nat
    }, |i: int| '0')
}

/// Decimal digits of `n`, left-padded with zeros to at least `w` characters.
pub open spec fn dec_str_pad(n: nat, w: int) -> Seq<char> {
    zeros(w - dec_str(n).len()) + dec_str(n)
}

/// Renders `n` in decimal, zero-padded to at least `w` characters.
pub fn fmt_u64_pad(n: u64, w: usize) -> (s: String)
    ensures
        s@ == dec_str_pad(n as nat, w as int),
{
    let digits = fmt_u64(n);
    let len = digits.as_str().unicode_len();
    let mut s = String::new();
    let mut k: usize = len;
    while k < w
        invariant
            len <= k,
            k <= w || k == len,
            s@.len() == k - len,
            forall|i: int| 0 <= i < s@.len() ==> s@[i] == '0',
        decreases w - k,
    {
        push_char(&mut s, '0');
        k = k + 1;
    }
    proof {
        assert(s@ =~= zeros(w as int - dec_str(n as nat).len()));
    }
    s.append(digits.as_str());
    proof {
        assert(s@ =~= dec_str_pad(n as nat, w as int));
    }
    s
}

/// Signed decimal, zero-padded to at least `w` characters in total; a
/// negative value carries a leading minus sign inside the width, the way
/// Rust's zero-padding formatter renders it.
pub open spec fn dec_str_signed_pad(v: int, w: int) -> Seq<char> {
    if v < 0 {
        seq!['-'] + dec_str_pad((-v) as nat, w - 1)
    } else {
        dec_str_pad(v as nat, w)
    }
}

/// Renders a signed value in decimal, zero-padded to at least `w` characters.
pub fn fmt_i64_pad(v: i64, w: usize) -> (s: String)
    requires
        v > i64::MIN,
        w >= 1,
    ensures
        s@ == dec_str_signed_pad(v as int, w as int),
{
    if v < 0 {
        let mut s = String::new();
        push_char(&mut s, '-');
        let rest = fmt_u64_pad((-v) as u64, w - 1);
        s.append(rest.as_str());
        proof {
            assert(s@ =~= dec_str_signed_pad(v as int, w as int));
        }
        s
    } else {
        fmt_u64_pad(v as u64, w)
    }
}

/// The character sequences a vector of strings holds.
pub open spec fn str_view_seq(v: Seq<String>) -> Seq<Seq<char>> {
    v.map_values(|s: String| s@)
}

/// The cell texts a table of string rows holds.
pub open spec fn table_views(rows: Seq<Vec<String>>) -> Seq<Seq<Seq<char>>> {
    rows.map_values(|r: Vec<String>| str_view_seq(r@))
}

pub proof fn lemma_str_view_seq_add(a: Seq<String>, b: Seq<String>)
    ensures
        str_view_seq(a + b) == str_view_seq(a) + str_view_seq(b),
{
    assert(str_view_seq(a + b) =~= str_view_seq(a) + str_view_seq(b));
}

/// The pattern `p` occurs in `s` at position `i`.
pub open spec fn occurs_at(s: Seq<char>, p: Seq<char>, i: int) -> bool {
    0 <= i && i + p.len() <= s.len() && s.subrange(i, i + p.len()) == p
}

/// The pattern `p` occurs somewhere in `s`.
pub open spec fn spec_contains(s: Seq<char>, p: Seq<char>) -> bool {
    exists|i: int| occurs_at(s, p, i)
}

/// Whether `s` contains `p` as a contiguous substring.
pub fn contains_str(s: &str, p: &str) -> (r: bool)
    ensures
        r == spec_contains(s@, p@),
{
    let n = s.unicode_len();
    let m = p.unicode_len();
    if m == 0 {
        proof {
            assert(s@.subrange(0, 0) =~= p@);
            assert(occurs_at(s@, p@, 0));
        }
        return true;
    }
    if m > n {
        proof {
            assert(forall|i: int| !occurs_at(s@, p@, i));
        }
        return false;
    }
    let mut i: usize = 0;
    while i <= n - m
        invariant
            0 <= i <= n - m + 1,
            1 <= m <= n,
            n == s@.len(),
            m == p@.len(),
            forall|k: int| 0 <= k < i ==> !occurs_at(s@, p@, k),
        decreases n - i,
    {
        let mut j: usize = 0;
        let mut matches_here = true;
        while j < m
            invariant
                0 <= j <= m,
                i + m <= n,
                n == s@.len(),
                m == p@.len(),
                matches_here ==> forall|t: int| 0 <= t < j ==> s@[i + t] == p@[t],
                !matches_here ==> s@.subrange(i as int, i + m) != p@,
            decreases m - j,
        {
            if s.get_char(i + j) != p.get_char(j) {
                matches_here = false;
                proof {
                    assert(s@.subrange(i as int, i + m) != p@) by {
                        assert(s@.subrange(i as int, i + m)[j as int] != p@[j as int]);
                    }
                }
                j = m;
            } else {
                j = j + 1;
            }
        }
        if matches_here {
            proof {
                assert(s@.subrange(i as int, i + m) =~= p@);
                assert(occurs_at(s@, p@, i as int));
            }
            return true;
        }
        proof {
            assert(!occurs_at(s@, p@, i as int));
        }
        i = i + 1;
    }
    proof {
        assert(forall|k: int| occurs_at(s@, p@, k) ==> 0 <= k <= n - m);
    }
    false
}

/// Index just after the last occurrence of `c` strictly before `i`; `0` when
/// there is none.
pub open spec fn rfind_after(s: Seq<char>, c: char, i: int) -> int
    recommends
        0 <= i <= s.len(),
    decreases i when 0 <= i <= s.len()
{
    if i <= 0 {
        0
    } else if s[i - 1] == c {
        i
    } else {
        rfind_after(s, c, i - 1)
    }
}

pub proof fn lemma_rfind_after(s: Seq<char>, c: char, i: int)
    requires
        0 <= i <= s.len(),
    ensures
        0 <= rfind_after(s, c, i) <= i,
        forall|j: int| rfind_after(s, c, i) <= j < i ==> s[j] != c,
        rfind_after(s, c, i) > 0 ==> s[rfind_after(s, c, i) - 1] == c,
    decreases i,
{
    if i > 0 && s[i - 1] != c {
        lemma_rfind_after(s, c, i - 1);
    }
}

/// Index just after the last occurrence of `c` in `s`; `0` when `c` does not
/// occur.
pub fn rfind_char(s: &str, c: char) -> (r: usize)
    ensures
        r == rfind_after(s@, c, s@.len() as int),
{
    let n = s.unicode_len();
    let mut i: usize = n;
    while i > 0 && s.get_char(i - 1) != c
        invariant
            0 <= i <= n,
            n == s@.len(),
            rfind_after(s@, c, n as int) == rfind_after(s@, c, i as int),
        decreases i,
    {
        i = i - 1;
    }
    i
}

} // verus!
