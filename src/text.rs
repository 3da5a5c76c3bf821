//! Text primitives over character sequences: substring search, prefixes,
//! suffixes and left-to-right replacement.
use vstd::prelude::*;

verus! {

/// `pat` occurs in `s` starting at position `i`.
pub open spec fn occurs_at(s: Seq<char>, pat: Seq<char>, i: int) -> bool {
    0 <= i && i + pat.len() <= s.len() && s.subrange(i, i + pat.len()) == pat
}

/// `pat` occurs somewhere in `s` (the empty pattern occurs everywhere).
pub open spec fn contains_seq(s: Seq<char>, pat: Seq<char>) -> bool {
    exists|i: int| occurs_at(s, pat, i)
}

pub open spec fn starts_with_seq(s: Seq<char>, pre: Seq<char>) -> bool {
    pre.len() <= s.len() && s.subrange(0, pre.len() as int) == pre
}

pub open spec fn ends_with_seq(s: Seq<char>, suf: Seq<char>) -> bool {
    suf.len() <= s.len() && s.subrange(s.len() - suf.len(), s.len() as int) == suf
}

/// Every non-overlapping occurrence of `pat` in `s`, scanning from the left,
/// replaced by `with`. A scan that finds `pat` at the front consumes it whole.
pub open spec fn replace_seq(s: Seq<char>, pat: Seq<char>, with: Seq<char>) -> Seq<char>
    decreases s.len(),
{
    if pat.len() == 0 || s.len() < pat.len() {
        s
    } else if s.subrange(0, pat.len() as int) == pat {
        with + replace_seq(s.subrange(pat.len() as int, s.len() as int), pat, with)
    } else {
        seq![s[0]] + replace_seq(s.subrange(1, s.len() as int), pat, with)
    }
}

/// What `str::to_lowercase` returns for a character sequence.
pub uninterp spec fn lower_of(s: Seq<char>) -> Seq<char>;

/// Relies on `str::contains` with a `&str` pattern: true iff the pattern
/// occurs as a substring.
#[verifier::external_body]
pub(crate) fn str_contains(s: &str, pat: &str) -> (r: bool)
    ensures
        r == contains_seq(s@, pat@),
{
    s.contains(pat)
}

/// Relies on `str::replace` with a non-empty `&str` pattern: all matches,
/// found left to right without overlap, are replaced.
#[verifier::external_body]
pub(crate) fn str_replace(s: &str, pat: &str, with: &str) -> (r: String)
    requires
        pat@.len() > 0,
    ensures
        r@ == replace_seq(s@, pat@, with@),
{
    s.replace(pat, with)
}

/// Relies on `str::starts_with` with a `&str` pattern.
#[verifier::external_body]
pub(crate) fn str_starts_with(s: &str, pre: &str) -> (r: bool)
    ensures
        r == starts_with_seq(s@, pre@),
{
    s.starts_with(pre)
}

/// Relies on `str::ends_with` with a `&str` pattern.
#[verifier::external_body]
pub(crate) fn str_ends_with(s: &str, suf: &str) -> (r: bool)
    ensures
        r == ends_with_seq(s@, suf@),
{
    s.ends_with(suf)
}

/// Relies on `str::to_lowercase`: the result depends on the characters alone,
/// and the empty string stays empty.
#[verifier::external_body]
pub(crate) fn str_to_lowercase(s: &str) -> (r: String)
    ensures
        r@ == lower_of(s@),
        s@.len() == 0 ==> r@.len() == 0,
{
    s.to_lowercase()
}

} // verus!
