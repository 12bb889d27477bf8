//! Character classes and elementary text scanning shared by the parser,
//! the type resolver and the emitter.
//!
//! The grammar of the annotated declarations is ASCII: identifiers are
//! made of ASCII letters, digits and underscores, and the whitespace that
//! the scanners skip is the ASCII kind.

use vstd::prelude::*;

verus! {

/// ASCII whitespace, the kind the line scanners skip over.
pub open spec fn is_ws(c: char) -> bool {
    c == ' ' || c == '\t' || c == '\r' || c == '\n' || c == '\u{0c}'
}

/// A word character: ASCII letter, digit or underscore.
pub open spec fn is_word(c: char) -> bool {
    ('a' <= c && c <= 'z') || ('A' <= c && c <= 'Z') || ('0' <= c && c <= '9') || c == '_'
}

/// First character of an identifier-like token: ASCII letter or underscore.
pub open spec fn is_alpha(c: char) -> bool {
    ('a' <= c && c <= 'z') || ('A' <= c && c <= 'Z') || c == '_'
}

pub fn ws_char(c: char) -> (r: bool)
    ensures
        r == is_ws(c),
{
    c == ' ' || c == '\t' || c == '\r' || c == '\n' || c == '\u{0c}'
}

pub fn word_char(c: char) -> (r: bool)
    ensures
        r == is_word(c),
{
    ('a' <= c && c <= 'z') || ('A' <= c && c <= 'Z') || ('0' <= c && c <= '9') || c == '_'
}

pub fn alpha_char(c: char) -> (r: bool)
    ensures
        r == is_alpha(c),
{
    ('a' <= c && c <= 'z') || ('A' <= c && c <= 'Z') || c == '_'
}

/// Index of the first occurrence of `c` at or after `i`, or `s.len()` if
/// there is none.
pub open spec fn find_from(s: Seq<char>, c: char, i: int) -> int
    decreases s.len() - i,
{
    if i < 0 || i >= s.len() {
        s.len() as int
    } else if s[i] == c {
        i
    } else {
        find_from(s, c, i + 1)
    }
}

pub fn find_char(s: &str, c: char, i: usize) -> (r: usize)
    requires
        i <= s@.len(),
    ensures
        r as int == find_from(s@, c, i as int),
        i <= r <= s@.len(),
        r < s@.len() ==> s@[r as int] == c,
    decreases s@.len() - i,
{
    if i == s.unicode_len() {
        i
    } else if s.get_char(i) == c {
        i
    } else {
        find_char(s, c, i + 1)
    }
}

/// End of the maximal run of word characters starting at `i`.
pub open spec fn word_run_end(s: Seq<char>, i: int) -> int
    decreases s.len() - i,
{
    if 0 <= i < s.len() && is_word(s[i]) {
        word_run_end(s, i + 1)
    } else {
        i
    }
}

pub fn word_run(s: &str, i: usize) -> (r: usize)
    requires
        i <= s@.len(),
    ensures
        r as int == word_run_end(s@, i as int),
        i <= r <= s@.len(),
    decreases s@.len() - i,
{
    if i < s.unicode_len() && word_char(s.get_char(i)) {
        word_run(s, i + 1)
    } else {
        i
    }
}

/// Start of the maximal run of word characters ending at `j` (exclusive):
/// the least `p` such that every character in `[p, j)` is a word character.
pub open spec fn word_run_start(s: Seq<char>, j: int) -> int
    decreases j,
{
    if 0 < j <= s.len() && is_word(s[j - 1]) {
        word_run_start(s, j - 1)
    } else {
        j
    }
}

pub fn word_run_back(s: &str, j: usize) -> (r: usize)
    requires
        j <= s@.len(),
    ensures
        r as int == word_run_start(s@, j as int),
        r <= j,
    decreases j,
{
    if j > 0 && word_char(s.get_char(j - 1)) {
        word_run_back(s, j - 1)
    } else {
        j
    }
}

/// First index at or after `i` that holds a non-whitespace character, or
/// `s.len()` if the rest of the text is whitespace.
pub open spec fn skip_ws(s: Seq<char>, i: int) -> int
    decreases s.len() - i,
{
    if 0 <= i < s.len() && is_ws(s[i]) {
        skip_ws(s, i + 1)
    } else {
        i
    }
}

pub fn skip_ws_from(s: &str, i: usize) -> (r: usize)
    requires
        i <= s@.len(),
    ensures
        r as int == skip_ws(s@, i as int),
        i <= r <= s@.len(),
    decreases s@.len() - i,
{
    if i < s.unicode_len() && ws_char(s.get_char(i)) {
        skip_ws_from(s, i + 1)
    } else {
        i
    }
}

/// End of the text once trailing whitespace is dropped: the greatest `e`
/// not above `j` such that `s[e - 1]` is not whitespace.
pub open spec fn trim_end_idx(s: Seq<char>, j: int) -> int
    decreases j,
{
    if 0 < j <= s.len() && is_ws(s[j - 1]) {
        trim_end_idx(s, j - 1)
    } else {
        j
    }
}

pub fn trim_end_at(s: &str, j: usize) -> (r: usize)
    requires
        j <= s@.len(),
    ensures
        r as int == trim_end_idx(s@, j as int),
        r <= j,
    decreases j,
{
    if j > 0 && ws_char(s.get_char(j - 1)) {
        trim_end_at(s, j - 1)
    } else {
        j
    }
}

/// First index at or after `i` that holds a word character, or `s.len()`
/// if there is none.
pub open spec fn find_word_from(s: Seq<char>, i: int) -> int
    decreases s.len() - i,
{
    if i < 0 || i >= s.len() {
        s.len() as int
    } else if is_word(s[i]) {
        i
    } else {
        find_word_from(s, i + 1)
    }
}

pub fn find_word(s: &str, i: usize) -> (r: usize)
    requires
        i <= s@.len(),
    ensures
        r as int == find_word_from(s@, i as int),
        i <= r <= s@.len(),
        r < s@.len() ==> is_word(s@[r as int]),
    decreases s@.len() - i,
{
    if i == s.unicode_len() {
        i
    } else if word_char(s.get_char(i)) {
        i
    } else {
        find_word(s, i + 1)
    }
}

/// End of the maximal run of non-whitespace characters starting at `i`.
pub open spec fn nonws_run_end(s: Seq<char>, i: int) -> int
    decreases s.len() - i,
{
    if 0 <= i < s.len() && !is_ws(s[i]) {
        nonws_run_end(s, i + 1)
    } else {
        i
    }
}

pub fn nonws_run(s: &str, i: usize) -> (r: usize)
    requires
        i <= s@.len(),
    ensures
        r as int == nonws_run_end(s@, i as int),
        i <= r <= s@.len(),
    decreases s@.len() - i,
{
    if i < s.unicode_len() && !ws_char(s.get_char(i)) {
        nonws_run(s, i + 1)
    } else {
        i
    }
}

/// The scanners' results stay inside the scanned text.
pub broadcast proof fn lemma_find_from_bounds(s: Seq<char>, c: char, i: int)
    ensures
        0 <= i <= s.len() ==> i <= #[trigger] find_from(s, c, i) <= s.len(),
    decreases s.len() - i,
{
    if 0 <= i < s.len() && s[i] != c {
        lemma_find_from_bounds(s, c, i + 1);
    }
}

pub broadcast proof fn lemma_find_word_from_bounds(s: Seq<char>, i: int)
    ensures
        0 <= i <= s.len() ==> i <= #[trigger] find_word_from(s, i) <= s.len(),
        0 <= i <= s.len() && find_word_from(s, i) < s.len() ==> is_word(
            s[find_word_from(s, i)],
        ),
    decreases s.len() - i,
{
    if 0 <= i < s.len() && !is_word(s[i]) {
        lemma_find_word_from_bounds(s, i + 1);
    }
}

pub broadcast proof fn lemma_word_run_end_bounds(s: Seq<char>, i: int)
    ensures
        i <= #[trigger] word_run_end(s, i),
        0 <= i <= s.len() ==> word_run_end(s, i) <= s.len(),
        0 <= i < s.len() && is_word(s[i]) ==> word_run_end(s, i) > i,
    decreases s.len() - i,
{
    if 0 <= i < s.len() && is_word(s[i]) {
        lemma_word_run_end_bounds(s, i + 1);
    }
}

pub broadcast proof fn lemma_nonws_run_end_bounds(s: Seq<char>, i: int)
    ensures
        i <= #[trigger] nonws_run_end(s, i),
        0 <= i <= s.len() ==> nonws_run_end(s, i) <= s.len(),
    decreases s.len() - i,
{
    if 0 <= i < s.len() && !is_ws(s[i]) {
        lemma_nonws_run_end_bounds(s, i + 1);
    }
}

/// Bounds of the backward scanners, ambient for the proofs below.
pub broadcast proof fn lemma_word_run_start_bounds(s: Seq<char>, j: int)
    ensures
        #[trigger] word_run_start(s, j) <= j,
        0 <= j <= s.len() ==> 0 <= word_run_start(s, j),
    decreases j,
{
    if 0 < j <= s.len() && is_word(s[j - 1]) {
        lemma_word_run_start_bounds(s, j - 1);
    }
}

pub broadcast proof fn lemma_trim_end_idx_bounds(s: Seq<char>, j: int)
    ensures
        #[trigger] trim_end_idx(s, j) <= j,
        0 <= j <= s.len() ==> 0 <= trim_end_idx(s, j),
    decreases j,
{
    if 0 < j <= s.len() && is_ws(s[j - 1]) {
        lemma_trim_end_idx_bounds(s, j - 1);
    }
}

pub broadcast proof fn lemma_skip_ws_bounds(s: Seq<char>, i: int)
    ensures
        i <= #[trigger] skip_ws(s, i),
        0 <= i <= s.len() ==> skip_ws(s, i) <= s.len(),
    decreases s.len() - i,
{
    if 0 <= i < s.len() && is_ws(s[i]) {
        lemma_skip_ws_bounds(s, i + 1);
    }
}

/// Index of the first `//` pair, or `s.len()` when there is none.
pub open spec fn find_dslash(s: Seq<char>, i: int) -> int
    decreases s.len() - i,
{
    if i < 0 || i + 1 >= s.len() {
        s.len() as int
    } else if s[i] == '/' && s[i + 1] == '/' {
        i
    } else {
        find_dslash(s, i + 1)
    }
}

pub broadcast proof fn lemma_find_dslash_bounds(s: Seq<char>, i: int)
    ensures
        0 <= i <= s.len() ==> i <= #[trigger] find_dslash(s, i) <= s.len(),
    decreases s.len() - i,
{
    if 0 <= i && i + 1 < s.len() && !(s[i] == '/' && s[i + 1] == '/') {
        lemma_find_dslash_bounds(s, i + 1);
    }
}

/// Whether all characters of `s` from `i` on equal those of `t` from `i` on.
spec fn eq_from(s: Seq<char>, t: Seq<char>, i: int) -> bool {
    forall|j: int| i <= j < s.len() ==> s[j] == t[j]
}

fn str_eq_from(a: &str, b: &str, i: usize) -> (r: bool)
    requires
        a@.len() == b@.len(),
        i <= a@.len(),
    ensures
        r == eq_from(a@, b@, i as int),
    decreases a@.len() - i,
{
    if i == a.unicode_len() {
        true
    } else if a.get_char(i) == b.get_char(i) {
        str_eq_from(a, b, i + 1)
    } else {
        false
    }
}

/// Executable comparison of two string slices by their character sequences.
pub fn str_eq(a: &str, b: &str) -> (r: bool)
    ensures
        r == (a@ == b@),
{
    let n = a.unicode_len();
    if n != b.unicode_len() {
        return false;
    }
    let r = str_eq_from(a, b, 0);
    proof {
        if r {
            assert(a@ =~= b@);
        }
    }
    r
}

} // verus!
