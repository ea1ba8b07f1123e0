//! The resolver: starting vertices, properties, neighbors and coercions of
//! the property graph, over the dependency index and the session's clients.
//!
//! Properties are read from vertices that are already materialized and from
//! what the clients have cached; nothing here makes an external call.
//! Neighbors that need external data are resolved from the clients' caches
//! once the caller has filled them (see the clients' lookup steps).
use vstd::prelude::*;

use crate::crates_io::{
    downloads_of, first_matching, yanked_nums, yanked_of, CratesIoClient, RegistryRecord,
};
use crate::dependency::{
    dependency_set, deps_of, package_of, strictly_sorted, transitive_set, DependencyIndex, Package,
};
use crate::geiger::{hundredths_spec, unsafety_for, GeigerClient, GeigerCount};
use crate::github::{ForgeRepository, ForgeUser, GitHubClient};
use crate::repo::{classify_spec, url_parts_of, RepoId, RepoIdView};
use crate::version::NameVersion;
use crate::vertex::{
    copy_strings, str_eq, AdvisoryDate, AdvisoryRecord, AffectedFunction,
    CodeStatsRecord, FieldValue, FieldValueView, Property, Vertex,
};

verus! {

/// The directory of a path: the path without its last component.
pub uninterp spec fn parent_dir_of(path: Seq<char>) -> Seq<char>;

/// Relies on `std::path::PathBuf::pop`: the path without its last
/// component, unchanged where it has none.
#[verifier::external_body]
fn parent_dir(path: &str) -> (r: String)
    ensures
        r@ == parent_dir_of(path@),
{
    let mut p = std::path::PathBuf::from(path);
    p.pop();
    p.to_string_lossy().into_owned()
}

/// Where a package downloaded by the build tool lives: the directory of its
/// manifest.
pub fn local_package_path(package: &Package) -> (r: String)
    ensures
        r@ == parent_dir_of(package.manifest_path@),
{
    parent_dir(package.manifest_path.as_str())
}

/// Seconds since the Unix epoch at midnight UTC of a calendar date, `None`
/// where the date does not exist.
pub uninterp spec fn midnight_utc_of(year: u32, month: u32, day: u32) -> Option<i64>;

/// Relies on `chrono`: `NaiveDate::from_ymd_opt` for whether the date
/// exists, and `and_hms_opt(0, 0, 0)` with `and_utc().timestamp()` for the
/// seconds at its midnight in UTC.
#[verifier::external_body]
fn midnight_utc(date: AdvisoryDate) -> (r: Option<i64>)
    ensures
        r == midnight_utc_of(date.year, date.month, date.day),
{
    chrono::NaiveDate::from_ymd_opt(date.year as i32, date.month, date.day).and_then(
        |d| d.and_hms_opt(0, 0, 0),
    ).map(|t| t.and_utc().timestamp())
}

pub open spec fn strings(v: Seq<String>) -> Seq<Seq<char>> {
    v.map_values(|s: String| s@)
}

pub open spec fn opt_string(v: Option<String>) -> FieldValueView {
    match v {
        Some(s) => FieldValueView::String(s@),
        None => FieldValueView::Null,
    }
}

pub open spec fn opt_u64(v: Option<u64>) -> FieldValueView {
    match v {
        Some(n) => FieldValueView::Uint64(n),
        None => FieldValueView::Null,
    }
}

pub open spec fn opt_i64(v: Option<i64>) -> FieldValueView {
    match v {
        Some(n) => FieldValueView::Int64(n),
        None => FieldValueView::Null,
    }
}

pub open spec fn opt_bool(v: Option<bool>) -> FieldValueView {
    match v {
        Some(b) => FieldValueView::Bool(b),
        None => FieldValueView::Null,
    }
}

/// The value of a package property, given the package's registry record.
pub open spec fn package_value(pkg: Package, rec: Option<RegistryRecord>, p: Property) -> FieldValueView {
    match p {
        Property::PackageId => FieldValueView::String(pkg.id_text@),
        Property::PackageName => FieldValueView::String(pkg.name@),
        Property::PackageVersion => FieldValueView::String(pkg.version_text@),
        Property::PackageLicense => opt_string(pkg.license),
        Property::PackageKeywords => FieldValueView::List(strings(pkg.keywords@)),
        Property::PackageCategories => FieldValueView::List(strings(pkg.categories@)),
        Property::PackageManifestPath => FieldValueView::String(pkg.manifest_path@),
        Property::PackageSourcePath => FieldValueView::String(parent_dir_of(pkg.manifest_path@)),
        _ => match rec {
            None => FieldValueView::Null,
            Some(r) => match p {
                Property::CratesIoTotalDownloads => FieldValueView::Uint64(r.downloads),
                Property::CratesIoRecentDownloads => opt_u64(r.recent_downloads),
                Property::CratesIoVersionDownloads => opt_u64(
                    downloads_of(first_matching(r.versions@, pkg.version@)),
                ),
                Property::CratesIoVersionsCount => FieldValueView::Uint64(
                    r.versions@.len() as u64,
                ),
                Property::CratesIoYanked => opt_bool(
                    yanked_of(first_matching(r.versions@, pkg.version@)),
                ),
                Property::CratesIoYankedVersions => FieldValueView::List(yanked_nums(r.versions@)),
                Property::CratesIoYankedVersionsCount => FieldValueView::Uint64(
                    yanked_nums(r.versions@).len() as u64,
                ),
                Property::CratesIoYankedRatio => if r.versions@.len() == 0 {
                    FieldValueView::Null
                } else {
                    FieldValueView::Ratio(
                        yanked_nums(r.versions@).len() as u64,
                        r.versions@.len() as u64,
                    )
                },
                _ => FieldValueView::Null,
            },
        },
    }
}

pub open spec fn repository_value(r: ForgeRepository, p: Property) -> FieldValueView {
    match p {
        Property::Url => FieldValueView::String(r.html_url@),
        Property::RepositoryName => FieldValueView::String(r.name@),
        Property::RepositoryStarsCount => FieldValueView::Int64(r.stargazers_count),
        Property::RepositoryForksCount => FieldValueView::Int64(r.forks_count),
        Property::RepositoryOpenIssuesCount => FieldValueView::Int64(r.open_issues_count),
        Property::RepositoryWatchersCount => FieldValueView::Int64(r.watchers_count),
        Property::RepositoryHasIssues => FieldValueView::Bool(r.has_issues),
        Property::RepositoryArchived => FieldValueView::Bool(r.archived),
        _ => FieldValueView::Bool(r.fork),
    }
}

pub open spec fn user_value(u: ForgeUser, p: Property) -> FieldValueView {
    match p {
        Property::UserUsername => FieldValueView::String(u.login@),
        Property::UserUnixCreatedAt => opt_i64(u.created_at),
        Property::UserFollowersCount => FieldValueView::Int64(u.followers),
        _ => FieldValueView::String(u.email@),
    }
}

pub open spec fn date_value(d: AdvisoryDate) -> FieldValueView {
    opt_i64(midnight_utc_of(d.year, d.month, d.day))
}

pub open spec fn advisory_value(a: AdvisoryRecord, p: Property) -> FieldValueView {
    match p {
        Property::AdvisoryId => FieldValueView::String(a.id@),
        Property::AdvisoryTitle => FieldValueView::String(a.title@),
        Property::AdvisoryDescription => FieldValueView::String(a.description@),
        Property::AdvisoryUnixDateReported => date_value(a.date),
        Property::AdvisoryUnixDateWithdrawn => match a.withdrawn {
            Some(d) => date_value(d),
            None => FieldValueView::Null,
        },
        Property::AdvisoryAffectedArch => match a.affected {
            Some(aff) => FieldValueView::List(strings(aff.arch@)),
            None => FieldValueView::Null,
        },
        Property::AdvisoryAffectedOs => match a.affected {
            Some(aff) => FieldValueView::List(strings(aff.os@)),
            None => FieldValueView::Null,
        },
        Property::AdvisoryPatchedVersions => FieldValueView::List(strings(a.patched@)),
        Property::AdvisoryUnaffectedVersions => FieldValueView::List(strings(a.unaffected@)),
        _ => opt_string(a.severity),
    }
}

pub open spec fn count_value(c: GeigerCount, p: Property) -> FieldValueView {
    match p {
        Property::CountSafe => FieldValueView::Uint64(c.safe as u64),
        Property::CountUnsafe => FieldValueView::Uint64(c.unsafe_ as u64),
        Property::CountTotal => FieldValueView::Uint64(c.total_spec() as u64),
        _ => FieldValueView::Hundredths(hundredths_spec(c.unsafe_ as int, c.total_spec()) as u64),
    }
}

pub open spec fn stats_lines(s: CodeStatsRecord) -> int {
    s.blanks + s.code + s.comments
}

pub open spec fn stats_value(s: CodeStatsRecord, p: Property) -> FieldValueView {
    match p {
        Property::StatsLanguage => FieldValueView::String(s.language@),
        Property::StatsFiles => FieldValueView::Uint64(s.files as u64),
        Property::StatsLines => FieldValueView::Uint64(stats_lines(s) as u64),
        Property::StatsBlanks => FieldValueView::Uint64(s.blanks as u64),
        Property::StatsCode => FieldValueView::Uint64(s.code as u64),
        Property::StatsComments => FieldValueView::Uint64(s.comments as u64),
        Property::StatsCommentsToCode => FieldValueView::Ratio(s.comments as u64, s.code as u64),
        _ => FieldValueView::Bool(s.inaccurate),
    }
}

pub open spec fn is_package_property(p: Property) -> bool {
    match p {
        Property::PackageId | Property::PackageName | Property::PackageVersion
        | Property::PackageLicense | Property::PackageKeywords | Property::PackageCategories
        | Property::PackageManifestPath | Property::PackageSourcePath
        | Property::CratesIoTotalDownloads | Property::CratesIoRecentDownloads
        | Property::CratesIoVersionDownloads | Property::CratesIoVersionsCount
        | Property::CratesIoYanked | Property::CratesIoYankedVersions
        | Property::CratesIoYankedVersionsCount | Property::CratesIoYankedRatio => true,
        _ => false,
    }
}

/// Whether `p` is a property of the vertex's type; a pair outside the
/// schema is an internal inconsistency that callers rule out.
pub open spec fn applies(v: Vertex, p: Property) -> bool {
    if is_package_property(p) {
        v is Package
    } else {
        match p {
            Property::Url => v.webpage_url() is Some,
            Property::RepositoryName | Property::RepositoryStarsCount
            | Property::RepositoryForksCount | Property::RepositoryOpenIssuesCount
            | Property::RepositoryWatchersCount | Property::RepositoryHasIssues
            | Property::RepositoryArchived | Property::RepositoryFork => v is GitHubRepository,
            Property::UserUsername | Property::UserUnixCreatedAt | Property::UserFollowersCount
            | Property::UserEmail => v is GitHubUser,
            Property::AdvisoryId | Property::AdvisoryTitle | Property::AdvisoryDescription
            | Property::AdvisoryUnixDateReported | Property::AdvisoryUnixDateWithdrawn
            | Property::AdvisoryAffectedArch | Property::AdvisoryAffectedOs
            | Property::AdvisoryPatchedVersions | Property::AdvisoryUnaffectedVersions
            | Property::AdvisorySeverity => v is Advisory,
            Property::FunctionPath | Property::FunctionVersions => v is AffectedFunctionVersions,
            Property::ForbidsUnsafe => v is GeigerUnsafety,
            Property::CountSafe | Property::CountUnsafe => v is GeigerCount,
            Property::CountTotal | Property::CountPercentageUnsafe => match v {
                Vertex::GeigerCount(c) => c.total_spec() <= u32::MAX,
                _ => false,
            },
            Property::StatsInaccurate => v is LanguageCodeStats,
            Property::StatsLines => match v {
                Vertex::LanguageCodeStats(s) => stats_lines(s) <= usize::MAX,
                Vertex::LanguageBlob(s) => stats_lines(s) <= usize::MAX,
                _ => false,
            },
            _ => v is LanguageCodeStats || v is LanguageBlob,
        }
    }
}

/// The neighbor edges of the schema that the resolver answers from the index
/// and the clients' caches.
#[derive(Clone, Copy, Debug, PartialEq, Eq, Structural)]
pub enum Edge {
    PackageDependencies,
    PackageRepository,
    PackageGeiger,
    RepositoryOwner,
    AdvisoryAffectedFunctions,
    UnsafetyUsed,
    UnsafetyUnused,
    UnsafetyTotal,
    CategoriesFunctions,
    CategoriesExprs,
    CategoriesItemImpls,
    CategoriesItemTraits,
    CategoriesMethods,
    CategoriesTotal,
}

/// Whether `e` is an edge of the vertex's type.
pub open spec fn edge_applies(v: Vertex, e: Edge) -> bool {
    match e {
        Edge::PackageDependencies | Edge::PackageRepository | Edge::PackageGeiger => v is Package,
        Edge::RepositoryOwner => v is GitHubRepository,
        Edge::AdvisoryAffectedFunctions => v is Advisory,
        Edge::UnsafetyUsed | Edge::UnsafetyUnused => v is GeigerUnsafety,
        Edge::UnsafetyTotal => match v {
            Vertex::GeigerUnsafety(u) => u.fits(),
            _ => false,
        },
        Edge::CategoriesTotal => match v {
            Vertex::GeigerCategories(c) => c.fits(),
            _ => false,
        },
        _ => v is GeigerCategories,
    }
}

/// The repository vertex for a URL: the GitHub repository where the URL
/// names one that the forge client found, a repository for other GitHub or
/// GitLab URLs, and a webpage otherwise.
pub open spec fn repository_vertex_ok(
    r: Vertex,
    url: Seq<char>,
    found: spec_fn((Seq<char>, Seq<char>)) -> Option<ForgeRepository>,
) -> bool {
    match classify_spec(url, url_parts_of(url)) {
        RepoIdView::GitHub(owner, name) => match found((owner, name)) {
            Some(rec) => r == Vertex::GitHubRepository(rec),
            None => r matches Vertex::Repository(u) && u@ == url,
        },
        RepoIdView::GitLab(_) => r matches Vertex::Repository(u) && u@ == url,
        RepoIdView::Unknown(_) => r matches Vertex::Webpage(u) && u@ == url,
    }
}

/// The vertex of an affected function: its path and versions as recorded.
pub open spec fn function_vertex_ok(v: Vertex, f: AffectedFunction) -> bool {
    v matches Vertex::AffectedFunctionVersions(g) && g.path@ == f.path@ && g.versions@
        == f.versions@
}

/// The geiger counts of one category, as a vertex.
pub open spec fn count_vertex(c: GeigerCount) -> Vertex {
    Vertex::GeigerCount(c)
}

/// One resolution session: the dependency index and the clients whose
/// caches the caller fills.
pub struct IndicateAdapter {
    pub index: DependencyIndex,
    pub github: GitHubClient,
    pub crates_io: CratesIoClient,
    pub geiger: GeigerClient,
}

/// The type of a vertex that can be narrowed to `target`.
pub open spec fn coerces_to(v: Vertex, target: Seq<char>) -> bool {
    if target == "Repository"@ {
        v.repository_url() is Some
    } else {
        v is GitHubRepository
    }
}

impl IndicateAdapter {
    pub open spec fn wf(&self) -> bool {
        self.index.wf()
    }

    /// The registry record cached for a package's name.
    pub open spec fn record_for(&self, pkg: Package) -> Option<RegistryRecord> {
        self.crates_io.record(pkg.name@)
    }

    /// The value of property `p` of vertex `v`.
    pub open spec fn property_spec(&self, v: Vertex, p: Property) -> FieldValueView {
        match v {
            Vertex::Package(id) => {
                let pkg = package_of(self.index.packages_view(), id).unwrap();
                package_value(pkg, self.record_for(pkg), p)
            },
            Vertex::Webpage(u) => FieldValueView::String(u@),
            Vertex::Repository(u) => FieldValueView::String(u@),
            Vertex::GitHubRepository(r) => repository_value(r, p),
            Vertex::GitHubUser(u) => user_value(u, p),
            Vertex::Advisory(a) => advisory_value(a, p),
            Vertex::AffectedFunctionVersions(f) => match p {
                Property::FunctionPath => FieldValueView::String(f.path@),
                _ => FieldValueView::List(strings(f.versions@)),
            },
            Vertex::GeigerUnsafety(u) => FieldValueView::Bool(u.forbids_unsafe),
            Vertex::GeigerCategories(_) => FieldValueView::Null,
            Vertex::GeigerCount(c) => count_value(c, p),
            Vertex::LanguageCodeStats(s) => stats_value(s, p),
            Vertex::LanguageBlob(s) => stats_value(s, p),
        }
    }

    /// The root package, the only vertex of the root entry point.
    pub fn root_package(&self) -> (r: Vertex)
        ensures
            r == Vertex::Package(self.index.root_id()),
    {
        Vertex::Package(self.index.root())
    }

    /// The dependency entry point: the root's direct dependencies, sorted
    /// and each once, with the root itself when asked for.
    pub fn dependencies(&self, include_root: bool) -> (r: Vec<u64>)
        requires
            self.wf(),
        ensures
            strictly_sorted(r@),
            r@.to_set() == dependency_set(self.index.root_direct(), self.index.root_id(), include_root),
    {
        self.index.dependency_ids(include_root)
    }

    /// The transitive entry point: packages that some package other than
    /// the root depends on directly, sorted and each once.
    pub fn transitive_dependencies(&self) -> (r: Vec<u64>)
        ensures
            strictly_sorted(r@),
            r@.to_set() == transitive_set(self.index.entries(), self.index.root_id()),
    {
        self.index.transitive_dependency_ids()
    }

    fn package_property(&self, pkg: &Package, p: Property) -> (r: FieldValue)
        requires
            is_package_property(p),
        ensures
            r@ == package_value(*pkg, self.record_for(*pkg), p),
    {
        match p {
            Property::PackageId => FieldValue::String(pkg.id_text.clone()),
            Property::PackageName => FieldValue::String(pkg.name.clone()),
            Property::PackageVersion => FieldValue::String(pkg.version_text.clone()),
            Property::PackageLicense => match &pkg.license {
                Some(l) => FieldValue::String(l.clone()),
                None => FieldValue::Null,
            },
            Property::PackageKeywords => FieldValue::List(copy_strings(&pkg.keywords)),
            Property::PackageCategories => FieldValue::List(copy_strings(&pkg.categories)),
            Property::PackageManifestPath => FieldValue::String(pkg.manifest_path.clone()),
            Property::PackageSourcePath => FieldValue::String(local_package_path(pkg)),
            _ => match self.crates_io.crate_response(pkg.name.as_str()) {
                None => FieldValue::Null,
                Some(rec) => match p {
                    Property::CratesIoTotalDownloads => FieldValue::Uint64(rec.downloads),
                    Property::CratesIoRecentDownloads => match rec.recent_downloads {
                        Some(n) => FieldValue::Uint64(n),
                        None => FieldValue::Null,
                    },
                    Property::CratesIoVersionDownloads => match rec.version_downloads(&pkg.version) {
                        Some(n) => FieldValue::Uint64(n),
                        None => FieldValue::Null,
                    },
                    Property::CratesIoVersionsCount => FieldValue::Uint64(rec.versions_count() as u64),
                    Property::CratesIoYanked => match rec.yanked(&pkg.version) {
                        Some(b) => FieldValue::Bool(b),
                        None => FieldValue::Null,
                    },
                    Property::CratesIoYankedVersions => {
                        let v = rec.yanked_versions();
                        FieldValue::List(v)
                    },
                    Property::CratesIoYankedVersionsCount => FieldValue::Uint64(
                        rec.yanked_versions_count() as u64,
                    ),
                    Property::CratesIoYankedRatio => {
                        let total = rec.versions_count();
                        if total == 0 {
                            FieldValue::Null
                        } else {
                            FieldValue::Ratio(rec.yanked_versions_count() as u64, total as u64)
                        }
                    },
                    _ => FieldValue::Null,
                },
            },
        }
    }

    /// The value of property `p` of vertex `v`. The pair must belong to the
    /// schema, and a package vertex must name a package of the index.
    pub fn resolve_property(&self, v: &Vertex, p: Property) -> (r: FieldValue)
        requires
            applies(*v, p),
            (*v) matches Vertex::Package(id) ==> package_of(self.index.packages_view(), id) is Some,
        ensures
            r@ == self.property_spec(*v, p),
    {
        match v {
            Vertex::Package(id) => {
                let pkg = self.index.packages().get(*id).unwrap();
                self.package_property(pkg, p)
            },
            Vertex::Webpage(u) => FieldValue::String(u.clone()),
            Vertex::Repository(u) => FieldValue::String(u.clone()),
            Vertex::GitHubRepository(r) => match p {
                Property::Url => FieldValue::String(r.html_url.clone()),
                Property::RepositoryName => FieldValue::String(r.name.clone()),
                Property::RepositoryStarsCount => FieldValue::Int64(r.stargazers_count),
                Property::RepositoryForksCount => FieldValue::Int64(r.forks_count),
                Property::RepositoryOpenIssuesCount => FieldValue::Int64(r.open_issues_count),
                Property::RepositoryWatchersCount => FieldValue::Int64(r.watchers_count),
                Property::RepositoryHasIssues => FieldValue::Bool(r.has_issues),
                Property::RepositoryArchived => FieldValue::Bool(r.archived),
                _ => FieldValue::Bool(r.fork),
            },
            Vertex::GitHubUser(u) => match p {
                Property::UserUsername => FieldValue::String(u.login.clone()),
                Property::UserUnixCreatedAt => match u.created_at {
                    Some(t) => FieldValue::Int64(t),
                    None => FieldValue::Null,
                },
                Property::UserFollowersCount => FieldValue::Int64(u.followers),
                _ => FieldValue::String(u.email.clone()),
            },
            Vertex::Advisory(a) => match p {
                Property::AdvisoryId => FieldValue::String(a.id.clone()),
                Property::AdvisoryTitle => FieldValue::String(a.title.clone()),
                Property::AdvisoryDescription => FieldValue::String(a.description.clone()),
                Property::AdvisoryUnixDateReported => match midnight_utc(a.date) {
                    Some(t) => FieldValue::Int64(t),
                    None => FieldValue::Null,
                },
                Property::AdvisoryUnixDateWithdrawn => match a.withdrawn {
                    Some(d) => match midnight_utc(d) {
                        Some(t) => FieldValue::Int64(t),
                        None => FieldValue::Null,
                    },
                    None => FieldValue::Null,
                },
                Property::AdvisoryAffectedArch => match &a.affected {
                    Some(aff) => FieldValue::List(copy_strings(&aff.arch)),
                    None => FieldValue::Null,
                },
                Property::AdvisoryAffectedOs => match &a.affected {
                    Some(aff) => FieldValue::List(copy_strings(&aff.os)),
                    None => FieldValue::Null,
                },
                Property::AdvisoryPatchedVersions => FieldValue::List(copy_strings(&a.patched)),
                Property::AdvisoryUnaffectedVersions => FieldValue::List(copy_strings(&a.unaffected)),
                _ => match &a.severity {
                    Some(s) => FieldValue::String(s.clone()),
                    None => FieldValue::Null,
                },
            },
            Vertex::AffectedFunctionVersions(f) => match p {
                Property::FunctionPath => FieldValue::String(f.path.clone()),
                _ => FieldValue::List(copy_strings(&f.versions)),
            },
            Vertex::GeigerUnsafety(u) => FieldValue::Bool(u.forbids_unsafe),
            Vertex::GeigerCategories(_) => FieldValue::Null,
            Vertex::GeigerCount(c) => match p {
                Property::CountSafe => FieldValue::Uint64(c.safe as u64),
                Property::CountUnsafe => FieldValue::Uint64(c.unsafe_ as u64),
                Property::CountTotal => FieldValue::Uint64(c.total() as u64),
                _ => FieldValue::Hundredths(c.percentage_unsafe()),
            },
            Vertex::LanguageCodeStats(s) => Self::stats_property(s, p),
            Vertex::LanguageBlob(s) => Self::stats_property(s, p),
        }
    }

    fn stats_property(s: &CodeStatsRecord, p: Property) -> (r: FieldValue)
        requires
            p == Property::StatsLines ==> stats_lines(*s) <= usize::MAX,
        ensures
            r@ == stats_value(*s, p),
    {
        match p {
            Property::StatsLanguage => FieldValue::String(s.language.clone()),
            Property::StatsFiles => FieldValue::Uint64(s.files as u64),
            Property::StatsLines => FieldValue::Uint64((s.blanks + s.code + s.comments) as u64),
            Property::StatsBlanks => FieldValue::Uint64(s.blanks as u64),
            Property::StatsCode => FieldValue::Uint64(s.code as u64),
            Property::StatsComments => FieldValue::Uint64(s.comments as u64),
            Property::StatsCommentsToCode => FieldValue::Ratio(s.comments as u64, s.code as u64),
            _ => FieldValue::Bool(s.inaccurate),
        }
    }

    /// The repository that the forge client found for `id`, if any.
    pub open spec fn found_repository(&self) -> spec_fn((Seq<char>, Seq<char>)) -> Option<
        ForgeRepository,
    > {
        |k: (Seq<char>, Seq<char>)|
            if self.github.repos().contains_key(k) {
                self.github.repos()[k]
            } else {
                None
            }
    }

    /// The repository vertex for a package's repository URL, from what the
    /// forge client has cached.
    pub fn get_repository_from_url(&self, url: &str) -> (r: Vertex)
        ensures
            repository_vertex_ok(r, url@, self.found_repository()),
    {
        match RepoId::from_url(url) {
            RepoId::GitHub(id) => match self.github.get_repository(&id) {
                Some(rec) => Vertex::GitHubRepository(rec.duplicate()),
                None => Vertex::Repository(url.to_owned()),
            },
            RepoId::GitLab(_) => Vertex::Repository(url.to_owned()),
            RepoId::Unknown(_) => Vertex::Webpage(url.to_owned()),
        }
    }

    /// The neighbors of `v` along `e`, in order. Package vertices must name
    /// packages of the index.
    pub fn resolve_neighbors(&self, v: &Vertex, e: Edge) -> (r: Vec<Vertex>)
        requires
            edge_applies(*v, e),
            (*v) matches Vertex::Package(id) ==> package_of(self.index.packages_view(), id) is Some,
        ensures
            match *v {
                Vertex::Package(id) => {
                    let pkg = package_of(self.index.packages_view(), id).unwrap();
                    match e {
                        Edge::PackageDependencies => {
                            let d = match deps_of(self.index.entries(), id) {
                                Some(d) => d,
                                None => Seq::empty(),
                            };
                            &&& r@.len() == d.len()
                            &&& forall|i: int| 0 <= i < d.len() ==> r@[i] == Vertex::Package(d[i])
                        },
                        Edge::PackageRepository => match pkg.repository {
                            None => r@.len() == 0,
                            Some(url) => r@.len() == 1 && repository_vertex_ok(
                                r@[0],
                                url@,
                                self.found_repository(),
                            ),
                        },
                        _ => match unsafety_for(
                            self.geiger.entries(),
                            (pkg.name@, pkg.version@),
                        ) {
                            Some(u) => r@ == seq![Vertex::GeigerUnsafety(u)],
                            None => r@.len() == 0,
                        },
                    }
                },
                Vertex::GitHubRepository(repo) => match repo.owner_login {
                    None => r@.len() == 0,
                    Some(login) => {
                        let found = if self.github.users().contains_key(login@) {
                            self.github.users()[login@]
                        } else {
                            None
                        };
                        match found {
                            Some(u) => r@ == seq![Vertex::GitHubUser(u)],
                            None => r@.len() == 0,
                        }
                    },
                },
                Vertex::Advisory(a) => match a.affected {
                    None => r@.len() == 0,
                    Some(aff) => {
                        &&& r@.len() == aff.functions@.len()
                        &&& forall|i: int|
                            0 <= i < r@.len() ==> function_vertex_ok(#[trigger] r@[i], aff.functions@[i])
                    },
                },
                Vertex::GeigerUnsafety(u) => match e {
                    Edge::UnsafetyUsed => r@ == seq![Vertex::GeigerCategories(u.used)],
                    Edge::UnsafetyUnused => r@ == seq![Vertex::GeigerCategories(u.unused)],
                    _ => r@ == seq![Vertex::GeigerCategories(u.used.add_spec(u.unused))],
                },
                Vertex::GeigerCategories(c) => match e {
                    Edge::CategoriesFunctions => r@ == seq![count_vertex(c.functions)],
                    Edge::CategoriesExprs => r@ == seq![count_vertex(c.exprs)],
                    Edge::CategoriesItemImpls => r@ == seq![count_vertex(c.item_impls)],
                    Edge::CategoriesItemTraits => r@ == seq![count_vertex(c.item_traits)],
                    Edge::CategoriesMethods => r@ == seq![count_vertex(c.methods)],
                    _ => r@.len() == 1 && (r@[0] matches Vertex::GeigerCount(t) && t.safe
                        == c.safe_spec() && t.unsafe_ == c.unsafe_spec()),
                },
                _ => r@.len() == 0,
            },
    {
        let mut out: Vec<Vertex> = Vec::new();
        match v {
            Vertex::Package(id) => {
                let pkg = self.index.packages().get(*id).unwrap();
                match e {
                    Edge::PackageDependencies => {
                        let deps = self.index.get_dependencies(*id);
                        let mut i: usize = 0;
                        while i < deps.len()
                            invariant
                                i <= deps@.len(),
                                out@.len() == i,
                                forall|k: int| 0 <= k < i ==> out@[k] == Vertex::Package(deps@[k]),
                            decreases deps@.len() - i,
                        {
                            out.push(Vertex::Package(deps[i]));
                            i = i + 1;
                        }
                    },
                    Edge::PackageRepository => {
                        match &pkg.repository {
                            Some(url) => {
                                out.push(self.get_repository_from_url(url.as_str()));
                            },
                            None => {},
                        }
                    },
                    _ => {
                        let gid = NameVersion::new(pkg.name.clone(), pkg.version.duplicate());
                        match self.geiger.unsafety(&gid) {
                            Some(u) => {
                                out.push(Vertex::GeigerUnsafety(u));
                            },
                            None => {},
                        }
                    },
                }
            },
            Vertex::GitHubRepository(repo) => {
                match &repo.owner_login {
                    Some(login) => match self.github.get_public_user(login.as_str()) {
                        Some(u) => {
                            out.push(Vertex::GitHubUser(u.duplicate()));
                        },
                        None => {},
                    },
                    None => {},
                }
            },
            Vertex::Advisory(a) => {
                match &a.affected {
                    Some(aff) => {
                        let mut i: usize = 0;
                        while i < aff.functions.len()
                            invariant
                                i <= aff.functions@.len(),
                                out@.len() == i,
                                forall|k: int|
                                    0 <= k < i ==> function_vertex_ok(
                                        #[trigger] out@[k],
                                        aff.functions@[k],
                                    ),
                            decreases aff.functions@.len() - i,
                        {
                            let f = &aff.functions[i];
                            out.push(
                                Vertex::AffectedFunctionVersions(
                                    AffectedFunction {
                                        path: f.path.clone(),
                                        versions: copy_strings(&f.versions),
                                    },
                                ),
                            );
                            i = i + 1;
                        }
                    },
                    None => {},
                }
            },
            Vertex::GeigerUnsafety(u) => {
                let c = match e {
                    Edge::UnsafetyUsed => u.used,
                    Edge::UnsafetyUnused => u.unused,
                    _ => u.total(),
                };
                out.push(Vertex::GeigerCategories(c));
            },
            Vertex::GeigerCategories(c) => {
                let n = match e {
                    Edge::CategoriesFunctions => c.functions,
                    Edge::CategoriesExprs => c.exprs,
                    Edge::CategoriesItemImpls => c.item_impls,
                    Edge::CategoriesItemTraits => c.item_traits,
                    Edge::CategoriesMethods => c.methods,
                    _ => c.total(),
                };
                out.push(Vertex::GeigerCount(n));
            },
            _ => {},
        }
        proof {
            if out@.len() == 1 {
                assert(out@ =~= seq![out@[0]]);
            }
        }
        out
    }

    /// Whether the vertex can be narrowed to `target`, which must be
    /// `Repository` or `GitHubRepository`.
    pub fn resolve_coercion(&self, v: &Vertex, target: &str) -> (r: bool)
        requires
            target@ == "Repository"@ || target@ == "GitHubRepository"@,
        ensures
            r == coerces_to(*v, target@),
    {
        if str_eq(target, "Repository") {
            v.as_repository().is_some()
        } else {
            match v {
                Vertex::GitHubRepository(_) => true,
                _ => false,
            }
        }
    }
}

} // verus!
