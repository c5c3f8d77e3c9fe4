//! Semantic versions as plain values.
//!
//! The grammar and the order of pre-release and build tags are those of the
//! `semver` crate, which is called for both; the numbers are compared here.

use vstd::prelude::*;
use vstd::string::StringExecFns;

verus! {

/// `semver::Error`: why a text is no version. It is carried as it comes;
/// nothing is known of what it holds.
#[verifier::external_type_specification]
#[verifier::external_body]
pub struct ExSemverError(semver::Error);

/// A parsed semantic version.
#[derive(Debug)]
pub struct Version {
    pub major: u64,
    pub minor: u64,
    pub patch: u64,
    /// Pre-release tag without its leading `-`; empty for a release.
    pub pre: String,
    /// Build metadata without its leading `+`; empty if there is none.
    pub build: String,
}

/// What a `Version` holds, as mathematical values.
pub struct VersionView {
    pub major: u64,
    pub minor: u64,
    pub patch: u64,
    pub pre: Seq<char>,
    pub build: Seq<char>,
}

impl View for Version {
    type V = VersionView;

    open spec fn view(&self) -> VersionView {
        VersionView {
            major: self.major,
            minor: self.minor,
            patch: self.patch,
            pre: self.pre@,
            build: self.build@,
        }
    }
}

/// What `semver::Version::parse` makes of `text`: the parts of the version, or
/// nothing where it reports an error.
pub uninterp spec fn semver_parse(text: Seq<char>) -> Option<VersionView>;

/// Whether `semver` accepts both `a` and `b` as pre-release tags and orders
/// `a` strictly before `b`.
pub uninterp spec fn prerelease_less(a: Seq<char>, b: Seq<char>) -> bool;

/// Whether `semver` accepts both `a` and `b` as build metadata and orders `a`
/// strictly before `b`.
pub uninterp spec fn build_less(a: Seq<char>, b: Seq<char>) -> bool;

/// `a` comes before `b` as a pre-release tag. The order is asked in both
/// directions and counts only where the two answers agree.
pub open spec fn pre_before(a: Seq<char>, b: Seq<char>) -> bool {
    prerelease_less(a, b) && !prerelease_less(b, a)
}

/// `a` comes before `b` as build metadata, by the same rule.
pub open spec fn build_before(a: Seq<char>, b: Seq<char>) -> bool {
    build_less(a, b) && !build_less(b, a)
}

/// `a` is strictly older than `b`: major, minor and patch compare as a triple
/// of numbers, then the pre-release tags decide, then the build metadata.
pub open spec fn precedes(a: VersionView, b: VersionView) -> bool {
    if a.major != b.major {
        a.major < b.major
    } else if a.minor != b.minor {
        a.minor < b.minor
    } else if a.patch != b.patch {
        a.patch < b.patch
    } else if a.pre != b.pre {
        pre_before(a.pre, b.pre)
    } else {
        a.build != b.build && build_before(a.build, b.build)
    }
}

/// Calls `semver::Version::parse` and copies the parts of the version out.
/// Trusted: success and the parts are what the name `semver_parse` stands for.
#[verifier::external_body]
pub(crate) fn semver_parse_text(text: &str) -> (r: Result<Version, semver::Error>)
    ensures
        match r {
            Ok(v) => semver_parse(text@) == Some(v@),
            Err(_) => semver_parse(text@) is None,
        },
{
    match semver::Version::parse(text) {
        Ok(v) => Ok(
            Version {
                major: v.major,
                minor: v.minor,
                patch: v.patch,
                pre: v.pre.as_str().to_string(),
                build: v.build.as_str().to_string(),
            },
        ),
        Err(e) => Err(e),
    }
}

/// The message of a `semver::Error`, by its `Display`. Nothing is claimed of
/// the text.
#[verifier::external_body]
pub(crate) fn semver_error_text(e: &semver::Error) -> (msg: String) {
    e.to_string()
}

/// Builds two `semver::Prerelease` values with `Prerelease::new` and compares
/// them with `<`. Trusted: the answer is what the name `prerelease_less`
/// stands for; a tag that `semver` rejects is before and after nothing.
#[verifier::external_body]
fn semver_prerelease_less(a: &str, b: &str) -> (r: bool)
    ensures
        r == prerelease_less(a@, b@),
{
    match (semver::Prerelease::new(a), semver::Prerelease::new(b)) {
        (Ok(x), Ok(y)) => x < y,
        _ => false,
    }
}

/// Builds two `semver::BuildMetadata` values with `BuildMetadata::new` and
/// compares them with `<`. Trusted: the answer is what the name `build_less`
/// stands for; metadata that `semver` rejects is before and after nothing.
#[verifier::external_body]
fn semver_build_less(a: &str, b: &str) -> (r: bool)
    ensures
        r == build_less(a@, b@),
{
    match (semver::BuildMetadata::new(a), semver::BuildMetadata::new(b)) {
        (Ok(x), Ok(y)) => x < y,
        _ => false,
    }
}

impl Version {
    /// A release version without tags.
    pub fn new(major: u64, minor: u64, patch: u64) -> (v: Version)
        ensures
            v@ == (VersionView {
                major,
                minor,
                patch,
                pre: Seq::<char>::empty(),
                build: Seq::<char>::empty(),
            }),
    {
        Version { major, minor, patch, pre: String::new(), build: String::new() }
    }

    /// Whether this version is strictly older than `other`.
    pub fn is_before(&self, other: &Version) -> (r: bool)
        ensures
            r == precedes(self@, other@),
    {
        if self.major != other.major {
            self.major < other.major
        } else if self.minor != other.minor {
            self.minor < other.minor
        } else if self.patch != other.patch {
            self.patch < other.patch
        } else if !(self.pre == other.pre) {
            semver_prerelease_less(self.pre.as_str(), other.pre.as_str())
                && !semver_prerelease_less(other.pre.as_str(), self.pre.as_str())
        } else if !(self.build == other.build) {
            semver_build_less(self.build.as_str(), other.build.as_str())
                && !semver_build_less(other.build.as_str(), self.build.as_str())
        } else {
            false
        }
    }
}

/// No version is older than itself, and of two versions at most one is older
/// than the other.
pub proof fn lemma_precedes_is_strict(a: VersionView, b: VersionView)
    ensures
        !precedes(a, a),
        precedes(a, b) ==> !precedes(b, a),
{
}

/// Versions that differ in major, minor or patch are ordered by those numbers
/// alone, one way or the other.
pub proof fn lemma_numbers_decide(a: VersionView, b: VersionView)
    requires
        (a.major, a.minor, a.patch) != (b.major, b.minor, b.patch),
    ensures
        precedes(a, b) || precedes(b, a),
        precedes(a, b) <==> (a.major < b.major || (a.major == b.major && (a.minor < b.minor || (
        a.minor == b.minor && a.patch < b.patch)))),
{
}

/// The character for a digit below ten.
pub open spec fn digit(d: nat) -> char {
    ((48 + d) as u8) as char
}

/// A number in decimal notation, without leading zeros.
pub open spec fn decimal(n: nat) -> Seq<char>
    decreases n,
{
    if n < 10 {
        seq![digit(n)]
    } else {
        decimal(n / 10).push(digit(n % 10))
    }
}

/// A version as it is written: the three numbers with dots between them,
/// then `-` and the pre-release tag, then `+` and the build metadata, each
/// where there is one.
pub open spec fn version_text(v: VersionView) -> Seq<char> {
    decimal(v.major as nat) + "."@ + decimal(v.minor as nat) + "."@ + decimal(v.patch as nat) + (
    if v.pre.len() > 0 {
        "-"@ + v.pre
    } else {
        Seq::<char>::empty()
    }) + (if v.build.len() > 0 {
        "+"@ + v.build
    } else {
        Seq::<char>::empty()
    })
}

fn digit_text(d: u64) -> (s: &'static str)
    requires
        d < 10,
    ensures
        s@ == seq![digit(d as nat)],
{
    proof {
        reveal_strlit("0");
        reveal_strlit("1");
        reveal_strlit("2");
        reveal_strlit("3");
        reveal_strlit("4");
        reveal_strlit("5");
        reveal_strlit("6");
        reveal_strlit("7");
        reveal_strlit("8");
        reveal_strlit("9");
    }
    match d {
        0 => "0",
        1 => "1",
        2 => "2",
        3 => "3",
        4 => "4",
        5 => "5",
        6 => "6",
        7 => "7",
        8 => "8",
        _ => "9",
    }
}

/// `n` in decimal notation.
pub fn decimal_text(n: u64) -> (s: String)
    ensures
        s@ == decimal(n as nat),
    decreases n,
{
    if n < 10 {
        String::from_str(digit_text(n))
    } else {
        decimal_text(n / 10).concat(digit_text(n % 10))
    }
}

impl Version {
    /// The version as it is written.
    pub fn to_text(&self) -> (s: String)
        ensures
            s@ == version_text(self@),
    {
        let mut s = decimal_text(self.major).concat(".");
        s = s.concat(decimal_text(self.minor).as_str()).concat(".");
        s = s.concat(decimal_text(self.patch).as_str());
        if !self.pre.as_str().is_empty() {
            s = s.concat("-").concat(self.pre.as_str());
        }
        if !self.build.as_str().is_empty() {
            s = s.concat("+").concat(self.build.as_str());
        }
        s
    }
}

} // verus!
