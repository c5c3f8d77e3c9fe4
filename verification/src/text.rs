//! Character-level helpers shared by the parsers of this crate.

use vstd::prelude::*;
use vstd::std_specs::iter::IteratorSpec;

verus! {

/// Whether `char::is_whitespace` accepts `c`.
pub uninterp spec fn is_whitespace(c: char) -> bool;

/// The result of `str::to_lowercase` on a string with the characters `s`.
pub uninterp spec fn lowercase(s: Seq<char>) -> Seq<char>;

/// `s` ends with `suffix`.
pub open spec fn has_suffix(s: Seq<char>, suffix: Seq<char>) -> bool {
    suffix.len() <= s.len() && s.subrange(s.len() - suffix.len(), s.len() as int) == suffix
}

/// `s` starts with `prefix`.
pub open spec fn has_prefix(s: Seq<char>, prefix: Seq<char>) -> bool {
    prefix.len() <= s.len() && s.subrange(0, prefix.len() as int) == prefix
}

/// The characters of `s`, in order.
pub fn chars_of(s: &str) -> (out: Vec<char>)
    ensures
        out@ == s@,
{
    let mut out: Vec<char> = Vec::new();
    for c in iter: s.chars()
        invariant
            iter.seq() == s@,
            out.len() == iter.index(),
            forall|j: int| 0 <= j < out.len() ==> out@[j] == iter.seq()[j],
    {
        out.push(c);
    }
    out
}

/// Whether the characters of `text` in `from..to` are exactly `other`.
pub fn range_equals(text: &Vec<char>, from: usize, to: usize, other: &Vec<char>) -> (same: bool)
    requires
        from <= to <= text.len(),
    ensures
        same == (text@.subrange(from as int, to as int) == other@),
{
    if to - from != other.len() {
        return false;
    }
    let mut i: usize = 0;
    while i < other.len()
        invariant
            from <= to <= text.len(),
            to - from == other.len(),
            i <= other.len(),
            forall|j: int| 0 <= j < i ==> text@[from + j] == other@[j],
        decreases other.len() - i,
    {
        if text[from + i] != other[i] {
            return false;
        }
        i += 1;
    }
    assert(text@.subrange(from as int, to as int) =~= other@);
    true
}

/// Whether `s` ends with `suffix`.
pub fn ends_with(s: &Vec<char>, suffix: &Vec<char>) -> (r: bool)
    ensures
        r == has_suffix(s@, suffix@),
{
    if suffix.len() > s.len() {
        return false;
    }
    range_equals(s, s.len() - suffix.len(), s.len(), suffix)
}

/// Whether `s` starts with `prefix`.
pub fn starts_with(s: &Vec<char>, prefix: &Vec<char>) -> (r: bool)
    ensures
        r == has_prefix(s@, prefix@),
{
    if prefix.len() > s.len() {
        return false;
    }
    range_equals(s, 0, prefix.len(), prefix)
}

/// First position in `from..end` that holds no whitespace, or `end`.
pub open spec fn skip_blank(s: Seq<char>, from: int, end: int) -> int
    decreases end - from,
{
    if 0 <= from < end && is_whitespace(s[from]) {
        skip_blank(s, from + 1, end)
    } else {
        from
    }
}

/// First position in `from..end` that holds whitespace, or `end`.
pub open spec fn word_end(s: Seq<char>, from: int, end: int) -> int
    decreases end - from,
{
    if 0 <= from < end && !is_whitespace(s[from]) {
        word_end(s, from + 1, end)
    } else {
        from
    }
}

/// Calls `char::is_whitespace`. Trusted: the answer is the one that the name
/// `is_whitespace` stands for.
#[verifier::external_body]
pub(crate) fn char_is_whitespace(c: char) -> (r: bool)
    ensures
        r == is_whitespace(c),
{
    c.is_whitespace()
}

/// Calls `str::to_lowercase`. Trusted: the characters of the result are the
/// ones that the name `lowercase` stands for.
#[verifier::external_body]
pub(crate) fn to_lowercase(s: &str) -> (r: String)
    ensures
        r@ == lowercase(s@),
{
    s.to_lowercase()
}

pub(crate) fn scan_blank(text: &Vec<char>, from: usize, end: usize) -> (at: usize)
    requires
        from <= end <= text.len(),
    ensures
        at == skip_blank(text@, from as int, end as int),
        from <= at <= end,
{
    let mut i: usize = from;
    while i < end && char_is_whitespace(text[i])
        invariant
            from <= i <= end <= text.len(),
            skip_blank(text@, from as int, end as int) == skip_blank(text@, i as int, end as int),
        decreases end - i,
    {
        i += 1;
    }
    i
}

pub(crate) fn scan_word(text: &Vec<char>, from: usize, end: usize) -> (at: usize)
    requires
        from <= end <= text.len(),
    ensures
        at == word_end(text@, from as int, end as int),
        from <= at <= end,
{
    let mut i: usize = from;
    while i < end && !char_is_whitespace(text[i])
        invariant
            from <= i <= end <= text.len(),
            word_end(text@, from as int, end as int) == word_end(text@, i as int, end as int),
        decreases end - i,
    {
        i += 1;
    }
    i
}


/// End of the text in `from..end` once trailing whitespace is left off.
pub open spec fn trim_end(s: Seq<char>, from: int, end: int) -> int
    decreases end - from,
{
    if from < end <= s.len() && is_whitespace(s[end - 1]) {
        trim_end(s, from, end - 1)
    } else {
        end
    }
}

/// `s` without leading and trailing whitespace.
pub open spec fn trimmed(s: Seq<char>) -> Seq<char> {
    let from = skip_blank(s, 0, s.len() as int);
    s.subrange(from, trim_end(s, from, s.len() as int))
}

/// `s` without leading and trailing whitespace.
pub fn trim(s: &str) -> (r: &str)
    ensures
        r@ == trimmed(s@),
{
    let text = chars_of(s);
    let n = text.len();
    let from = scan_blank(&text, 0, n);
    let mut end: usize = n;
    while end > from && char_is_whitespace(text[end - 1])
        invariant
            from <= end <= n,
            n == text.len(),
            trim_end(text@, from as int, n as int) == trim_end(text@, from as int, end as int),
        decreases end - from,
    {
        end -= 1;
    }
    s.substring_char(from, end)
}

} // verus!
