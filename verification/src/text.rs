//! Character classes and small text helpers shared by the parsers.

use vstd::prelude::*;

verus! {

/// Word characters: ASCII letters, digits and underscore.
pub open spec fn spec_is_word_char(c: char) -> bool {
    ('a' <= c && c <= 'z') || ('A' <= c && c <= 'Z') || ('0' <= c && c <= '9') || c == '_'
}

/// Decimal digits.
pub open spec fn spec_is_digit(c: char) -> bool {
    '0' <= c && c <= '9'
}

/// ASCII whitespace.
pub open spec fn spec_is_space(c: char) -> bool {
    c == ' ' || c == '\t' || c == '\r' || c == '\n' || c == '\u{b}' || c == '\u{c}'
}

pub fn is_word_char(c: char) -> (r: bool)
    ensures
        r == spec_is_word_char(c),
{
    ('a' <= c && c <= 'z') || ('A' <= c && c <= 'Z') || ('0' <= c && c <= '9') || c == '_'
}

pub fn is_digit(c: char) -> (r: bool)
    ensures
        r == spec_is_digit(c),
{
    '0' <= c && c <= '9'
}

pub fn is_space(c: char) -> (r: bool)
    ensures
        r == spec_is_space(c),
{
    c == ' ' || c == '\t' || c == '\r' || c == '\n' || c == '\u{b}' || c == '\u{c}'
}

/// The end of the run of word characters that starts at `k`: the least
/// position at or after `k` holding a non-word character, or the end of `s`.
pub open spec fn spec_word_run_end(s: Seq<char>, k: int) -> int
    decreases s.len() - k,
{
    if k < 0 || k >= s.len() {
        k
    } else if spec_is_word_char(s[k]) {
        spec_word_run_end(s, k + 1)
    } else {
        k
    }
}

/// The end of the run of decimal digits that starts at `k`.
pub open spec fn spec_digit_run_end(s: Seq<char>, k: int) -> int
    decreases s.len() - k,
{
    if k < 0 || k >= s.len() {
        k
    } else if spec_is_digit(s[k]) {
        spec_digit_run_end(s, k + 1)
    } else {
        k
    }
}

pub proof fn lemma_word_run_end(s: Seq<char>, k: int)
    requires
        0 <= k <= s.len(),
    ensures
        k <= spec_word_run_end(s, k) <= s.len(),
        forall|j: int| k <= j < spec_word_run_end(s, k) ==> spec_is_word_char(s[j]),
        spec_word_run_end(s, k) < s.len() ==> !spec_is_word_char(s[spec_word_run_end(s, k)]),
    decreases s.len() - k,
{
    if k < s.len() && spec_is_word_char(s[k]) {
        lemma_word_run_end(s, k + 1);
    }
}

pub proof fn lemma_digit_run_end(s: Seq<char>, k: int)
    requires
        0 <= k <= s.len(),
    ensures
        k <= spec_digit_run_end(s, k) <= s.len(),
        forall|j: int| k <= j < spec_digit_run_end(s, k) ==> spec_is_digit(s[j]),
        spec_digit_run_end(s, k) < s.len() ==> !spec_is_digit(s[spec_digit_run_end(s, k)]),
    decreases s.len() - k,
{
    if k < s.len() && spec_is_digit(s[k]) {
        lemma_digit_run_end(s, k + 1);
    }
}

/// Exec scan for the end of a word run; `from` must lie inside the text.
pub fn word_run_end(text: &str, from: usize) -> (r: usize)
    requires
        from <= text@.len(),
    ensures
        r == spec_word_run_end(text@, from as int),
{
    let n = text.unicode_len();
    let mut j = from;
    while j < n && is_word_char(text.get_char(j))
        invariant
            from <= j <= n,
            n == text@.len(),
            forall|q: int| from <= q < j ==> spec_is_word_char(text@[q]),
            spec_word_run_end(text@, from as int) == spec_word_run_end(text@, j as int),
        decreases n - j,
    {
        j += 1;
    }
    proof {
        lemma_word_run_end(text@, j as int);
    }
    j
}

/// Exec scan for the end of a digit run; `from` must lie inside the text.
pub fn digit_run_end(text: &str, from: usize) -> (r: usize)
    requires
        from <= text@.len(),
    ensures
        r == spec_digit_run_end(text@, from as int),
{
    let n = text.unicode_len();
    let mut j = from;
    while j < n && is_digit(text.get_char(j))
        invariant
            from <= j <= n,
            n == text@.len(),
            forall|q: int| from <= q < j ==> spec_is_digit(text@[q]),
            spec_digit_run_end(text@, from as int) == spec_digit_run_end(text@, j as int),
        decreases n - j,
    {
        j += 1;
    }
    proof {
        lemma_digit_run_end(text@, j as int);
    }
    j
}

} // verus!
