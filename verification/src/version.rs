//! Semantic versions: the document records the editor version that produced
//! it. Parsing the version string is delegated to an outside semantic-version
//! parser behind a trusted wrapper.

use vstd::prelude::*;

verus! {

/// A semantic version: `major.minor.patch`, with optional pre-release and
/// build-metadata text.
#[derive(Clone, Debug, Eq, PartialEq)]
pub struct Version {
    /// The major version number.
    pub major: u64,
    /// The minor version number.
    pub minor: u64,
    /// The patch version number.
    pub patch: u64,
    /// The pre-release text, empty where the version has none.
    pub pre: String,
    /// The build-metadata text, empty where the version has none.
    pub build: String,
}

/// The mathematical value of a [`Version`].
#[verifier::ext_equal]
pub ghost struct VersionV {
    /// The major version number.
    pub major: u64,
    /// The minor version number.
    pub minor: u64,
    /// The patch version number.
    pub patch: u64,
    /// The pre-release text.
    pub pre: Seq<char>,
    /// The build-metadata text.
    pub build: Seq<char>,
}

impl View for Version {
    type V = VersionV;

    open spec fn view(&self) -> VersionV {
        VersionV {
            major: self.major,
            minor: self.minor,
            patch: self.patch,
            pre: self.pre@,
            build: self.build@,
        }
    }
}

impl DeepView for Version {
    type V = VersionV;

    open spec fn deep_view(&self) -> VersionV {
        self.view()
    }
}

/// What the outside semantic-version parser yields on a string: the parsed
/// version, or `None` where the text is not a valid semantic version. The
/// result is a function of the characters alone.
pub uninterp spec fn spec_semver(s: Seq<char>) -> Option<VersionV>;

/// Relies on `semver::Version::parse`: parses a semantic-version string,
/// deterministically in its characters, and rejects text that is not a valid
/// semantic version.
#[verifier::external_body]
pub(crate) fn parse_version(s: &str) -> (r: Option<Version>)
    ensures
        match r {
            Some(v) => spec_semver(s@) == Some(v@),
            None => spec_semver(s@) is None,
        },
{
    match semver::Version::parse(s) {
        Ok(v) => Some(
            Version {
                major: v.major,
                minor: v.minor,
                patch: v.patch,
                pre: v.pre.as_str().to_string(),
                build: v.build.as_str().to_string(),
            },
        ),
        Err(_) => None,
    }
}

} // verus!
