//! Download bookkeeping and checksum verification.
//!
//! A digest manifest is line-oriented text. Each line is split on whitespace
//! into fields; the first field is a hexadecimal SHA-256 digest and the second
//! the exact name of the file it belongs to. Further fields and shorter lines
//! are ignored.

use sha2::Digest;
use vstd::prelude::*;
use crate::text::{
    chars_of, is_whitespace, lowercase, range_equals, scan_blank, scan_word, skip_blank,
    to_lowercase, word_end,
};

verus! {

/// Size of the buffer in which a response body is read, in bytes.
pub const CHUNK_SIZE: usize = 8192;

/// The SHA-256 digest of `data`, as `sha2` computes it.
pub uninterp spec fn sha256(data: Seq<u8>) -> Seq<u8>;

/// The lowercase hexadecimal digit for a value below 16.
pub open spec fn hex_digit(nibble: int) -> char {
    if nibble < 10 {
        ((48 + nibble) as u8) as char
    } else {
        ((87 + nibble) as u8) as char
    }
}

/// Two lowercase hexadecimal digits per byte, the high half first.
pub open spec fn hex_lower(bytes: Seq<u8>) -> Seq<char> {
    Seq::new(
        2 * bytes.len(),
        |i: int|
            if i % 2 == 0 {
                hex_digit(bytes[i / 2] as int / 16)
            } else {
                hex_digit(bytes[i / 2] as int % 16)
            },
    )
}

/// Number of characters from `from` up to the next line feed or the end.
pub open spec fn line_len(s: Seq<char>, from: int) -> nat
    decreases s.len() - from,
{
    if 0 <= from < s.len() && s[from] != '\n' {
        1 + line_len(s, from + 1)
    } else {
        0
    }
}

/// The digest that the line `start..end` of `s` records for `filename`: its
/// first field in lowercase, if it has a second field and that is `filename`.
pub open spec fn line_digest(s: Seq<char>, start: int, end: int, filename: Seq<char>) -> Option<
    Seq<char>,
> {
    let first = skip_blank(s, start, end);
    let first_end = word_end(s, first, end);
    let second = skip_blank(s, first_end, end);
    let second_end = word_end(s, second, end);
    if second < end && s.subrange(second, second_end) == filename {
        Some(lowercase(s.subrange(first, first_end)))
    } else {
        None
    }
}

/// The digest of the first line at or after `start` that records one for
/// `filename`.
pub open spec fn manifest_digest_from(s: Seq<char>, start: int, filename: Seq<char>) -> Option<
    Seq<char>,
>
    decreases s.len() - start,
{
    if start < 0 || start >= s.len() {
        None
    } else {
        let end = start + line_len(s, start);
        match line_digest(s, start, end, filename) {
            Some(d) => Some(d),
            None => if end < s.len() {
                manifest_digest_from(s, end + 1, filename)
            } else {
                None
            },
        }
    }
}

/// The digest that a manifest records for `filename`: first matching line wins.
pub open spec fn manifest_digest(content: Seq<char>, filename: Seq<char>) -> Option<Seq<char>> {
    manifest_digest_from(content, 0, filename)
}

/// Whether `expected` names the SHA-256 digest of `data`, letter case aside.
pub open spec fn checksum_matches(data: Seq<u8>, expected: Seq<char>) -> bool {
    lowercase(hex_lower(sha256(data))) == lowercase(expected)
}

/// Calls `sha2::Sha256::digest`. Trusted: the bytes of the result are the
/// ones that the name `sha256` stands for.
#[verifier::external_body]
fn sha256_digest(data: &[u8]) -> (digest: Vec<u8>)
    ensures
        digest@ == sha256(data@),
{
    sha2::Sha256::digest(data).to_vec()
}

/// Calls `hex::encode`. Trusted: the result holds two lowercase hexadecimal
/// digits for each byte, in order, the high half of a byte first.
#[verifier::external_body]
fn hex_encode(bytes: &Vec<u8>) -> (r: String)
    ensures
        r@ == hex_lower(bytes@),
{
    hex::encode(bytes)
}

fn scan_line(text: &Vec<char>, from: usize) -> (end: usize)
    requires
        from <= text.len(),
    ensures
        end == from + line_len(text@, from as int),
        from <= end <= text.len(),
{
    let mut i: usize = from;
    while i < text.len() && text[i] != '\n'
        invariant
            from <= i <= text.len(),
            from + line_len(text@, from as int) == i + line_len(text@, i as int),
        decreases text.len() - i,
    {
        i += 1;
    }
    i
}

/// Looks `filename` up in the digest manifest `content`.
pub fn parse_checksum_file(content: &str, filename: &str) -> (digest: Option<String>)
    ensures
        match digest {
            Some(d) => manifest_digest(content@, filename@) == Some(d@),
            None => manifest_digest(content@, filename@) is None,
        },
{
    let text = chars_of(content);
    let name = chars_of(filename);
    let n = text.len();
    let mut start: usize = 0;
    while start < n
        invariant
            n == text.len(),
            text@ == content@,
            name@ == filename@,
            start <= n,
            manifest_digest(content@, filename@) == manifest_digest_from(
                text@,
                start as int,
                name@,
            ),
        decreases n - start,
    {
        let end = scan_line(&text, start);
        let first = scan_blank(&text, start, end);
        let first_end = scan_word(&text, first, end);
        let second = scan_blank(&text, first_end, end);
        let second_end = scan_word(&text, second, end);
        if second < end && range_equals(&text, second, second_end, &name) {
            let field = content.substring_char(first, first_end);
            return Some(to_lowercase(field));
        }
        if end == n {
            start = n;
        } else {
            start = end + 1;
        }
    }
    None
}

/// The SHA-256 digest of `data` in lowercase hexadecimal.
pub fn calculate_sha256(data: &[u8]) -> (digest: String)
    ensures
        digest@ == hex_lower(sha256(data@)),
{
    let raw = sha256_digest(data);
    hex_encode(&raw)
}

/// Whether `expected_hash` names the SHA-256 digest of `data`; letter case is
/// not significant.
pub fn verify_checksum(data: &[u8], expected_hash: &str) -> (ok: bool)
    ensures
        ok == checksum_matches(data@, expected_hash@),
{
    let actual = calculate_sha256(data);
    let actual_lower = to_lowercase(actual.as_str());
    let expected_lower = to_lowercase(expected_hash);
    actual_lower == expected_lower
}

/// Two expected digests that differ by more than letter case cannot both
/// verify the same data.
pub proof fn lemma_changed_digest_is_rejected(
    data: Seq<u8>,
    expected: Seq<char>,
    changed: Seq<char>,
)
    requires
        checksum_matches(data, expected),
        lowercase(changed) != lowercase(expected),
    ensures
        !checksum_matches(data, changed),
{
}

/// Expected digests that differ only by letter case verify the same data.
pub proof fn lemma_digest_case_is_ignored(data: Seq<u8>, expected: Seq<char>, other: Seq<char>)
    requires
        lowercase(expected) == lowercase(other),
    ensures
        checksum_matches(data, expected) == checksum_matches(data, other),
{
}

/// A line reaches up to the next line feed or the end, and holds no line
/// feed itself.
pub proof fn lemma_line_len(s: Seq<char>, from: int)
    requires
        0 <= from <= s.len(),
    ensures
        from + line_len(s, from) <= s.len(),
        forall|i: int| from <= i < from + line_len(s, from) ==> s[i] != '\n',
        from + line_len(s, from) < s.len() ==> s[from + line_len(s, from)] == '\n',
    decreases s.len() - from,
{
    if from < s.len() && s[from] != '\n' {
        lemma_line_len(s, from + 1);
    }
}

/// Whether a line of `s` starts at `at`.
pub open spec fn is_line_start(s: Seq<char>, at: int) -> bool {
    0 <= at < s.len() && (at == 0 || s[at - 1] == '\n')
}

/// What the line that starts at `at` records for `filename`.
pub open spec fn digest_at(s: Seq<char>, at: int, filename: Seq<char>) -> Option<Seq<char>> {
    line_digest(s, at, at + line_len(s, at), filename)
}

/// The line at `at` is the first from `start` on that records a digest for
/// `filename`, and the digest is `d`.
pub open spec fn first_recording(
    s: Seq<char>,
    start: int,
    at: int,
    filename: Seq<char>,
    d: Seq<char>,
) -> bool {
    &&& start <= at
    &&& is_line_start(s, at)
    &&& digest_at(s, at, filename) == Some(d)
    &&& forall|b: int|
        start <= b < at && is_line_start(s, b) ==> #[trigger] digest_at(s, b, filename) is None
}

/// No line from `start` on records a digest for `filename`.
pub open spec fn none_recording(s: Seq<char>, start: int, filename: Seq<char>) -> bool {
    forall|b: int|
        start <= b && is_line_start(s, b) ==> #[trigger] digest_at(s, b, filename) is None
}

/// What a lookup from the line at `start` on finds: the digest of the first
/// line that records one for `filename`; or nothing, when no line does.
pub proof fn lemma_lookup_from_line(s: Seq<char>, start: int, filename: Seq<char>)
    requires
        start == s.len() || is_line_start(s, start),
    ensures
        match manifest_digest_from(s, start, filename) {
            Some(d) => exists|at: int| first_recording(s, start, at, filename, d),
            None => none_recording(s, start, filename),
        },
    decreases s.len() - start,
{
    if 0 <= start < s.len() {
        let end = start + line_len(s, start);
        lemma_line_len(s, start);
        assert forall|b: int| start < b <= end implies !is_line_start(s, b) by {}
        if let Some(d) = digest_at(s, start, filename) {
            assert(first_recording(s, start, start, filename, d));
        } else if end < s.len() {
            let next = end + 1;
            lemma_lookup_from_line(s, next, filename);
            if let Some(d) = manifest_digest_from(s, next, filename) {
                let at = choose|at: int| #[trigger] first_recording(s, next, at, filename, d);
                assert(first_recording(s, start, at, filename, d));
            }
        }
    }
}

/// A manifest yields the digest of its first line that records one for the
/// file, and nothing for a name that no line records. A line records a
/// digest for exactly the name that is its second field.
pub proof fn lemma_first_recording_line_wins(content: Seq<char>, filename: Seq<char>)
    ensures
        match manifest_digest(content, filename) {
            Some(d) => exists|at: int| first_recording(content, 0, at, filename, d),
            None => none_recording(content, 0, filename),
        },
{
    lemma_lookup_from_line(content, 0, filename);
}

/// A stretch without a line feed that ends at a line feed or at the end is
/// a line.
proof fn lemma_line_reaches(s: Seq<char>, from: int, end: int)
    requires
        0 <= from <= end <= s.len(),
        forall|i: int| from <= i < end ==> s[i] != '\n',
        end < s.len() ==> s[end] == '\n',
    ensures
        from + line_len(s, from) == end,
    decreases end - from,
{
    if from < end {
        lemma_line_reaches(s, from + 1, end);
    }
}

/// Whitespace up to `to`, where there is none or the range ends, is skipped.
proof fn lemma_blank_reaches(s: Seq<char>, from: int, to: int, end: int)
    requires
        0 <= from <= to <= end <= s.len(),
        forall|i: int| from <= i < to ==> is_whitespace(s[i]),
        to < end ==> !is_whitespace(s[to]),
    ensures
        skip_blank(s, from, end) == to,
    decreases to - from,
{
    if from < to {
        lemma_blank_reaches(s, from + 1, to, end);
    }
}

/// A field reaches up to `to`, where whitespace stands or the range ends.
proof fn lemma_word_reaches(s: Seq<char>, from: int, to: int, end: int)
    requires
        0 <= from <= to <= end <= s.len(),
        forall|i: int| from <= i < to ==> !is_whitespace(s[i]),
        to < end ==> is_whitespace(s[to]),
    ensures
        word_end(s, from, end) == to,
    decreases to - from,
{
    if from < to {
        lemma_word_reaches(s, from + 1, to, end);
    }
}

/// A manifest of one line, made of a digest, whitespace and a name, yields
/// the digest in lowercase for that name and nothing for any other.
pub proof fn lemma_single_record(
    digest: Seq<char>,
    blanks: Seq<char>,
    name: Seq<char>,
    filename: Seq<char>,
)
    requires
        digest.len() > 0,
        blanks.len() > 0,
        name.len() > 0,
        forall|i: int| 0 <= i < digest.len() ==> !is_whitespace(digest[i]) && digest[i] != '\n',
        forall|i: int| 0 <= i < blanks.len() ==> is_whitespace(blanks[i]) && blanks[i] != '\n',
        forall|i: int| 0 <= i < name.len() ==> !is_whitespace(name[i]) && name[i] != '\n',
    ensures
        manifest_digest(digest + blanks + name + seq!['\n'], filename) == (if filename == name {
            Some(lowercase(digest))
        } else {
            None
        }),
{
    let s = digest + blanks + name + seq!['\n'];
    let a = digest.len() as int;
    let b = a + blanks.len();
    let c = b + name.len();
    assert forall|i: int| 0 <= i < a implies s[i] == digest[i] by {}
    assert forall|i: int| a <= i < b implies s[i] == blanks[i - a] by {}
    assert forall|i: int| b <= i < c implies s[i] == name[i - b] by {}
    lemma_line_reaches(s, 0, c);
    lemma_blank_reaches(s, 0, 0, c);
    lemma_word_reaches(s, 0, a, c);
    lemma_blank_reaches(s, a, b, c);
    lemma_word_reaches(s, b, c, c);
    assert(s.subrange(0, a) =~= digest);
    assert(s.subrange(b, c) =~= name);
    assert(manifest_digest_from(s, c + 1, filename) is None);
}

/// How far one transfer has come. Every transfer starts at byte zero.
#[derive(Clone, Copy, Debug)]
pub struct DownloadProgress {
    /// Bytes received so far.
    pub downloaded: u64,
    /// The size that was announced for the whole body; 0 if it is not known.
    pub total_size: u64,
}

/// What to do with a chunk that was read from the response.
#[derive(Clone, Copy, Debug)]
pub enum ChunkStep {
    /// The body has ended: flush the file.
    Finish,
    /// Write the chunk to the file. `report` holds the bytes received so far
    /// and the announced size, of which the quotient is the progress to
    /// report; it is absent where no size was announced.
    Write { report: Option<(u64, u64)> },
}

/// What a chunk of `bytes_read` bytes calls for when `p` is the progress
/// before it.
pub open spec fn chunk_step(p: DownloadProgress, bytes_read: usize) -> ChunkStep {
    if bytes_read == 0 {
        ChunkStep::Finish
    } else {
        ChunkStep::Write {
            report: if p.total_size > 0 {
                Some(((p.downloaded + bytes_read) as u64, p.total_size))
            } else {
                None
            },
        }
    }
}

impl DownloadProgress {
    /// The start of a transfer of `total_size` bytes.
    pub fn new(total_size: u64) -> (p: DownloadProgress)
        ensures
            p.downloaded == 0,
            p.total_size == total_size,
    {
        DownloadProgress { downloaded: 0, total_size }
    }

    /// Counts a chunk of `bytes_read` bytes and says what to do with it.
    pub fn record(&mut self, bytes_read: usize) -> (step: ChunkStep)
        requires
            old(self).downloaded + bytes_read <= u64::MAX,
        ensures
            final(self).downloaded == old(self).downloaded + bytes_read,
            final(self).total_size == old(self).total_size,
            step == chunk_step(*old(self), bytes_read),
    {
        if bytes_read == 0 {
            return ChunkStep::Finish;
        }
        self.downloaded = self.downloaded + bytes_read as u64;
        if self.total_size > 0 {
            ChunkStep::Write { report: Some((self.downloaded, self.total_size)) }
        } else {
            ChunkStep::Write { report: None }
        }
    }
}

} // verus!
