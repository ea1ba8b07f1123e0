//! Semantic versions and the (name, version) pair that identifies a package.
use vstd::prelude::*;

verus! {

/// What a semantic version holds, as plain values.
pub struct VersionView {
    pub major: u64,
    pub minor: u64,
    pub patch: u64,
    pub pre: Seq<char>,
    pub build: Seq<char>,
}

/// A semantic version: `major.minor.patch`, with optional pre-release and
/// build metadata (empty when absent).
pub struct Version {
    pub major: u64,
    pub minor: u64,
    pub patch: u64,
    pub pre: String,
    pub build: String,
}

impl View for Version {
    type V = VersionView;

    open spec fn view(&self) -> VersionView {
        VersionView {
            major: self.major,
            minor: self.minor,
            patch: self.patch,
            pre: self.pre@,
            build: self.build@,
        }
    }
}

/// The version that `semver` parses from a text, if the text is one.
pub uninterp spec fn semver_of(s: Seq<char>) -> Option<VersionView>;

/// Relies on `semver::Version::parse` (re-exported by `cargo_metadata`): the
/// parsed version, or `None` where the text is not a semantic version; the
/// result depends on the text alone.
#[verifier::external_body]
pub(crate) fn parse_version(s: &str) -> (r: Option<Version>)
    ensures
        match r {
            Some(v) => semver_of(s@) == Some(v@),
            None => semver_of(s@).is_none(),
        },
{
    match cargo_metadata::semver::Version::parse(s) {
        Ok(v) => Some(Version {
            major: v.major,
            minor: v.minor,
            patch: v.patch,
            pre: v.pre.as_str().to_string(),
            build: v.build.as_str().to_string(),
        }),
        Err(_) => None,
    }
}

impl Version {
    /// A copy of this version.
    pub fn duplicate(&self) -> (r: Version)
        ensures
            r == *self,
    {
        Version {
            major: self.major,
            minor: self.minor,
            patch: self.patch,
            pre: self.pre.clone(),
            build: self.build.clone(),
        }
    }

    /// Whether two versions are the same in every part, as `semver` compares
    /// them.
    pub fn same_as(&self, other: &Version) -> (r: bool)
        ensures
            r == (self@ == other@),
    {
        let r = self.major == other.major && self.minor == other.minor && self.patch
            == other.patch && self.pre == other.pre && self.build == other.build;
        proof {
            if self@ == other@ {
                assert(self.pre@ == other.pre@);
            }
        }
        r
    }
}

pub type NameVersionView = (Seq<char>, VersionView);

/// A package named by its name and version, assuming the crates.io
/// registry.
pub struct NameVersion {
    pub name: String,
    pub version: Version,
}

impl View for NameVersion {
    type V = NameVersionView;

    open spec fn view(&self) -> NameVersionView {
        (self.name@, self.version@)
    }
}

impl NameVersion {
    pub fn new(name: String, version: Version) -> (r: NameVersion)
        ensures
            r@ == (name@, version@),
    {
        NameVersion { name, version }
    }

    /// Whether both name and version agree.
    pub fn same_as(&self, other: &NameVersion) -> (r: bool)
        ensures
            r == (self@ == other@),
    {
        self.name == other.name && self.version.same_as(&other.version)
    }
}

} // verus!
