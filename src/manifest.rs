//! Manifest paths, and the comparison of package names that the registry
//! and the build tool use.
use vstd::prelude::*;

verus! {

/// A text with every `-` turned into `_`.
pub open spec fn dashes_to_underscores(s: Seq<char>) -> Seq<char> {
    s.map_values(|c: char| if c == '-' { '_' } else { c })
}

/// Relies on `str::replace` with a `char` pattern: every `-` replaced by
/// `_`.
#[verifier::external_body]
fn replace_dashes(s: &str) -> (r: String)
    ensures
        r@ == dashes_to_underscores(s@),
{
    s.replace('-', "_")
}

/// The lowercase form of a text, as Unicode defines it.
pub uninterp spec fn lower_of(s: Seq<char>) -> Seq<char>;

/// Relies on `str::to_lowercase`: the result depends on the characters
/// alone.
#[verifier::external_body]
fn lowercase(s: &str) -> (r: String)
    ensures
        r@ == lower_of(s@),
{
    s.to_lowercase()
}

/// The form in which two package names are compared: `-` and `_` are the
/// same character, and case does not matter.
pub open spec fn normalized_name(s: Seq<char>) -> Seq<char> {
    lower_of(dashes_to_underscores(s))
}

/// The absolute path of a package's `Cargo.toml`.
#[derive(Debug, Clone, PartialEq, Eq)]
pub struct ManifestPath(String);

impl View for ManifestPath {
    type V = Seq<char>;

    closed spec fn view(&self) -> Seq<char> {
        self.0@
    }
}

impl ManifestPath {
    /// Wraps a path that was already resolved to an existing manifest.
    pub fn from_resolved(path: String) -> (r: ManifestPath)
        ensures
            r@ == path@,
    {
        ManifestPath(path)
    }

    pub fn as_path(&self) -> (r: &str)
        ensures
            r@ == self@,
    {
        self.0.as_str()
    }

    /// Whether two package names are the same for the registry: `-` and
    /// `_` count as one character, and case is ignored.
    pub fn equal_package_names(s1: &str, s2: &str) -> (r: bool)
        ensures
            r == (normalized_name(s1@) == normalized_name(s2@)),
    {
        let a = lowercase(replace_dashes(s1).as_str());
        let b = lowercase(replace_dashes(s2).as_str());
        a == b
    }

    /// The index of the first manifest, among those found in a workspace,
    /// whose package name is `name`; manifests without a package are passed
    /// over.
    pub fn matching_manifest(package_names: &Vec<Option<String>>, name: &str) -> (r: Option<usize>)
        ensures
            match r {
                Some(i) => {
                    &&& i < package_names@.len()
                    &&& package_names@[i as int] matches Some(n) && normalized_name(n@)
                        == normalized_name(name@)
                    &&& forall|j: int|
                        0 <= j < i ==> !(#[trigger] package_names@[j] matches Some(n)
                            && normalized_name(n@) == normalized_name(name@))
                },
                None => forall|j: int|
                    0 <= j < package_names@.len() ==> !(#[trigger] package_names@[j] matches Some(n)
                        && normalized_name(n@) == normalized_name(name@)),
            },
    {
        let mut i: usize = 0;
        while i < package_names.len()
            invariant
                i <= package_names@.len(),
                forall|j: int|
                    0 <= j < i ==> !(#[trigger] package_names@[j] matches Some(n) && normalized_name(n@)
                        == normalized_name(name@)),
            decreases package_names@.len() - i,
        {
            match &package_names[i] {
                Some(n) => {
                    if Self::equal_package_names(n.as_str(), name) {
                        return Some(i);
                    }
                },
                None => {},
            }
            i = i + 1;
        }
        None
    }
}

} // verus!
