//! Benchmark-engine versions: the bucket a version falls in, the semantic
//! version the engine reports, and the output modes that version supports.

use vstd::prelude::*;

use crate::text::{owned, same_text, split_white_space, ws_tokens};

verus! {

/// The engine releases whose results the database holds.
#[derive(Debug, Clone, Copy, PartialEq, Eq, Hash, Structural)]
pub enum MajorMinor {
    V2_1,
    V2_2,
}

/// The semantic version text parses, giving its major and minor numbers.
pub uninterp spec fn semver_parse(text: Seq<char>) -> Option<(u64, u64)>;

/// Both parse, and the version satisfies the requirement.
pub uninterp spec fn semver_matches(req: Seq<char>, version: Seq<char>) -> bool;

/// Relies on `semver::Version::parse`: whether `text` is a semantic version,
/// and its `major` and `minor` fields when it is. The result depends on the
/// text alone.
#[verifier::external_body]
pub(crate) fn parse_major_minor(text: &str) -> (r: Option<(u64, u64)>)
    ensures
        r == semver_parse(text@),
{
    semver::Version::parse(text).ok().map(|v| (v.major, v.minor))
}

/// Relies on `semver::VersionReq::matches`, its operands read with
/// `semver::VersionReq::parse` and `semver::Version::parse`: whether the
/// version satisfies the requirement, and `false` where either text does not
/// parse. The result depends on the two texts alone.
#[verifier::external_body]
fn version_req_matches(req: &str, version: &str) -> (r: bool)
    ensures
        r == semver_matches(req@, version@),
{
    match (semver::VersionReq::parse(req), semver::Version::parse(version)) {
        (Ok(q), Ok(v)) => q.matches(&v),
        _ => false,
    }
}

/// Engine versions that can produce hardware-database snippets (pre-releases
/// of the first such release included).
pub const HWDB_REQUIREMENT: &'static str = ">=2.2.4-0";

/// Engine versions that predate the high-level summary.
pub const NO_HIGH_LEVEL_REQUIREMENT: &'static str = "<2.2.3";

/// Why an engine version could not be established.
#[derive(Debug, Clone, Copy, PartialEq, Eq, Structural)]
pub enum VersionError {
    /// The bucket is not one of the known releases.
    UnknownRelease,
    /// The engine's `--version` output has no second word.
    MalformedOutput,
    /// The reported version is not a semantic version.
    NotSemver,
}

/// The bucket named by `version`, if it is a known one.
pub open spec fn major_minor_of(version: Seq<char>) -> Option<MajorMinor> {
    if version == "2.1"@ {
        Some(MajorMinor::V2_1)
    } else if version == "2.2"@ {
        Some(MajorMinor::V2_2)
    } else {
        None
    }
}

/// The release named by `version` and the semantic version reported in
/// `output`, the second word of what the engine printed.
pub open spec fn version_outcome(version: Seq<char>, output: Seq<char>) -> Result<
    (MajorMinor, Seq<char>),
    VersionError,
> {
    match major_minor_of(version) {
        None => Err(VersionError::UnknownRelease),
        Some(mm) => if ws_tokens(output).len() < 2 {
            Err(VersionError::MalformedOutput)
        } else if semver_parse(ws_tokens(output)[1]) is None {
            Err(VersionError::NotSemver)
        } else {
            Ok((mm, ws_tokens(output)[1]))
        },
    }
}

/// An engine release and the semantic version that its binary reports.
#[derive(Debug)]
pub struct BenchVersion {
    pub major_minor: MajorMinor,
    /// The reported version, which parses as a semantic version.
    pub semver: String,
}

impl BenchVersion {
    /// The engine of bucket `version`, from what its `--version` printed:
    /// the second word of that output is its semantic version.
    pub fn new(version: &str, version_output: &str) -> (r: Result<BenchVersion, VersionError>)
        ensures
            r matches Ok(v) ==> version_outcome(version@, version_output@) == Ok::<_, VersionError>(
                (v.major_minor, v.semver@),
            ),
            r matches Err(e) ==> version_outcome(version@, version_output@) == Err::<
                (MajorMinor, Seq<char>),
                _,
            >(e),
    {
        let major_minor = if same_text(version, "2.1") {
            MajorMinor::V2_1
        } else if same_text(version, "2.2") {
            MajorMinor::V2_2
        } else {
            return Err(VersionError::UnknownRelease);
        };
        let words = split_white_space(version_output);
        if words.len() < 2 {
            return Err(VersionError::MalformedOutput);
        }
        let text = owned(words[1].as_str());
        assert(text@ == ws_tokens(version_output@)[1]);
        match parse_major_minor(text.as_str()) {
            None => Err(VersionError::NotSemver),
            Some(_) => Ok(BenchVersion { major_minor, semver: text }),
        }
    }

    /// The engine can produce hardware-database snippets.
    pub fn supports_hwdb(&self) -> (r: bool)
        ensures
            r == semver_matches(HWDB_REQUIREMENT@, self.semver@),
    {
        version_req_matches(HWDB_REQUIREMENT, self.semver.as_str())
    }

    /// The engine can produce a high-level summary.
    pub fn supports_high_level(&self) -> (r: bool)
        ensures
            r == !semver_matches(NO_HIGH_LEVEL_REQUIREMENT@, self.semver@),
    {
        !version_req_matches(NO_HIGH_LEVEL_REQUIREMENT, self.semver.as_str())
    }
}

} // verus!
