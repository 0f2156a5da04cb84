//! The `version = "<semver>"` statement.

use vstd::prelude::*;

use super::parsers::{one_char, space0, spec_char, spec_space0, spec_tag, tag};
use super::{error_at, Expected, PResult, Span};
use crate::text::{run_len, run_length, split_at_char, CharClass};

verus! {

/// A semantic version: `major.minor.patch`, with an optional pre-release
/// part and optional build metadata (each empty when absent).
#[derive(Clone, Debug, PartialEq, Eq)]
pub struct Version {
    pub major: u64,
    pub minor: u64,
    pub patch: u64,
    pub pre: String,
    pub build: String,
}

/// A semantic version as plain values: major, minor, patch, pre-release and
/// build metadata.
pub type SpecVersion = (u64, u64, u64, Seq<char>, Seq<char>);

impl View for Version {
    type V = SpecVersion;

    open spec fn view(&self) -> SpecVersion {
        (self.major, self.minor, self.patch, self.pre@, self.build@)
    }
}

impl Version {
    /// The version `major.minor.patch`, without pre-release or build metadata.
    pub fn new(major: u64, minor: u64, patch: u64) -> (v: Version)
        ensures
            v@ == (major, minor, patch, Seq::<char>::empty(), Seq::<char>::empty()),
    {
        Version { major, minor, patch, pre: String::new(), build: String::new() }
    }
}

/// The version that the semantic version grammar reads from `text`, if
/// `text` is one.
pub uninterp spec fn semver_of(text: Seq<char>) -> Option<SpecVersion>;

/// Relies on `semver::Version::from_str`: it reads `text` as a semantic
/// version or fails, and fails on the empty string. Its error value is
/// dropped: the caller reports the failure at its own position.
#[verifier::external_body]
fn read_semver(text: &str) -> (r: Option<Version>)
    ensures
        r matches Some(v) ==> semver_of(text@) == Some(v@),
        r is None ==> semver_of(text@) is None,
        text@.len() == 0 ==> r is None,
{
    match <semver::Version as std::str::FromStr>::from_str(text) {
        Ok(v) => Some(Version {
            major: v.major,
            minor: v.minor,
            patch: v.patch,
            pre: v.pre.as_str().to_string(),
            build: v.build.as_str().to_string(),
        }),
        Err(_) => None,
    }
}

/// `version`, `=` with spaces or tabs around it, and a double-quoted,
/// non-empty text that is a semantic version.
pub open spec fn spec_version(s: Seq<char>) -> Option<(Seq<char>, SpecVersion)> {
    match spec_tag(s, "version"@) {
        Some(r1) => match spec_char(spec_space0(r1), '=') {
            Some(r2) => match spec_char(spec_space0(r2), '"') {
                Some(r3) => {
                    let n = run_len(r3, CharClass::NotQuote) as int;
                    if n > 0 {
                        match spec_char(r3.skip(n), '"') {
                            Some(r4) => match semver_of(r3.take(n)) {
                                Some(v) => Some((r4, v)),
                                None => None,
                            },
                            None => None,
                        }
                    } else {
                        None
                    }
                },
                None => None,
            },
            None => None,
        },
        None => None,
    }
}

/// Recognises a version statement; a quoted text that is no semantic version
/// fails at the start of the statement.
pub fn parse_version<'i>(input: Span<'i>) -> (r: PResult<'i, Version>)
    ensures
        super::agrees(r, input@, spec_version(input@)),
{
    let r1 = tag(input, "version")?;
    let r2 = one_char(space0(r1), '=')?;
    let r3 = one_char(space0(r2), '"')?;
    let n = run_length(r3, CharClass::NotQuote);
    if n == 0 {
        return Err(error_at(r3, Expected::SemVer));
    }
    let (text, rest) = split_at_char(r3, n);
    let r4 = one_char(rest, '"')?;
    match read_semver(text) {
        Some(v) => Ok((r4, v)),
        None => Err(error_at(input, Expected::SemVer)),
    }
}

} // verus!
