//! The vertices that the resolver hands to the query engine, the values of
//! their properties, and the (type, property) pairs of the schema.
use vstd::prelude::*;

use crate::geiger::{GeigerCategories, GeigerCount, GeigerUnsafety};
use crate::github::{ForgeRepository, ForgeUser};

verus! {

/// A calendar date as the advisory database writes it.
#[derive(Clone, Copy, Debug, PartialEq, Eq, Structural)]
pub struct AdvisoryDate {
    pub year: u32,
    pub month: u32,
    pub day: u32,
}

/// A function affected by an advisory, and the version ranges in which it
/// is.
pub struct AffectedFunction {
    pub path: String,
    pub versions: Vec<String>,
}

/// What an advisory says is affected.
pub struct Affected {
    pub arch: Vec<String>,
    pub os: Vec<String>,
    pub functions: Vec<AffectedFunction>,
}

/// A security advisory.
pub struct AdvisoryRecord {
    pub id: String,
    pub title: String,
    pub description: String,
    pub date: AdvisoryDate,
    pub withdrawn: Option<AdvisoryDate>,
    pub affected: Option<Affected>,
    pub patched: Vec<String>,
    pub unaffected: Vec<String>,
    pub severity: Option<String>,
}

/// Code statistics of one language, or of one blob of a language embedded
/// in another.
pub struct CodeStatsRecord {
    pub language: String,
    pub files: usize,
    pub blanks: usize,
    pub code: usize,
    pub comments: usize,
    pub inaccurate: bool,
}

/// One entity of the property graph.
pub enum Vertex {
    /// A package of the dependency index, by identifier.
    Package(u64),
    Webpage(String),
    Repository(String),
    GitHubRepository(ForgeRepository),
    GitHubUser(ForgeUser),
    Advisory(AdvisoryRecord),
    AffectedFunctionVersions(AffectedFunction),
    GeigerUnsafety(GeigerUnsafety),
    GeigerCategories(GeigerCategories),
    GeigerCount(GeigerCount),
    LanguageCodeStats(CodeStatsRecord),
    LanguageBlob(CodeStatsRecord),
}

impl Vertex {
    /// The URL of a vertex that is a webpage: a plain webpage, a repository,
    /// or a GitHub repository (its page).
    pub open spec fn webpage_url(&self) -> Option<Seq<char>> {
        match self {
            Vertex::Webpage(u) => Some(u@),
            Vertex::Repository(u) => Some(u@),
            Vertex::GitHubRepository(r) => Some(r.html_url@),
            _ => None,
        }
    }

    /// The URL of a vertex that is a repository.
    pub open spec fn repository_url(&self) -> Option<Seq<char>> {
        match self {
            Vertex::Repository(u) => Some(u@),
            Vertex::GitHubRepository(r) => Some(r.html_url@),
            _ => None,
        }
    }

    /// The name of the vertex's type in the schema.
    pub open spec fn typename_spec(&self) -> Seq<char> {
        match self {
            Vertex::Package(_) => "Package"@,
            Vertex::Webpage(_) => "Webpage"@,
            Vertex::Repository(_) => "Repository"@,
            Vertex::GitHubRepository(_) => "GitHubRepository"@,
            Vertex::GitHubUser(_) => "GitHubUser"@,
            Vertex::Advisory(_) => "Advisory"@,
            Vertex::AffectedFunctionVersions(_) => "AffectedFunctionVersions"@,
            Vertex::GeigerUnsafety(_) => "GeigerUnsafety"@,
            Vertex::GeigerCategories(_) => "GeigerCategories"@,
            Vertex::GeigerCount(_) => "GeigerCount"@,
            Vertex::LanguageCodeStats(_) => "LanguageCodeStats"@,
            Vertex::LanguageBlob(_) => "LanguageBlob"@,
        }
    }

    pub fn typename(&self) -> (r: &'static str)
        ensures
            r@ == self.typename_spec(),
    {
        match self {
            Vertex::Package(_) => "Package",
            Vertex::Webpage(_) => "Webpage",
            Vertex::Repository(_) => "Repository",
            Vertex::GitHubRepository(_) => "GitHubRepository",
            Vertex::GitHubUser(_) => "GitHubUser",
            Vertex::Advisory(_) => "Advisory",
            Vertex::AffectedFunctionVersions(_) => "AffectedFunctionVersions",
            Vertex::GeigerUnsafety(_) => "GeigerUnsafety",
            Vertex::GeigerCategories(_) => "GeigerCategories",
            Vertex::GeigerCount(_) => "GeigerCount",
            Vertex::LanguageCodeStats(_) => "LanguageCodeStats",
            Vertex::LanguageBlob(_) => "LanguageBlob",
        }
    }

    pub fn as_webpage(&self) -> (r: Option<&str>)
        ensures
            match self.webpage_url() {
                Some(u) => r is Some && r.unwrap()@ == u,
                None => r is None,
            },
    {
        match self {
            Vertex::Webpage(u) => Some(u.as_str()),
            Vertex::Repository(u) => Some(u.as_str()),
            Vertex::GitHubRepository(r) => Some(r.html_url.as_str()),
            _ => None,
        }
    }

    pub fn as_repository(&self) -> (r: Option<&str>)
        ensures
            match self.repository_url() {
                Some(u) => r is Some && r.unwrap()@ == u,
                None => r is None,
            },
    {
        match self {
            Vertex::Repository(u) => Some(u.as_str()),
            Vertex::GitHubRepository(r) => Some(r.html_url.as_str()),
            _ => None,
        }
    }
}

/// The value of a property.
pub enum FieldValue {
    Null,
    Bool(bool),
    Int64(i64),
    Uint64(u64),
    String(String),
    List(Vec<String>),
    /// A percentage in hundredths of a percent (`3333` is `33.33 %`).
    Hundredths(u64),
    /// A ratio `numerator / denominator`, undefined where the denominator
    /// is zero.
    Ratio(u64, u64),
}

pub enum FieldValueView {
    Null,
    Bool(bool),
    Int64(i64),
    Uint64(u64),
    String(Seq<char>),
    List(Seq<Seq<char>>),
    Hundredths(u64),
    Ratio(u64, u64),
}

impl View for FieldValue {
    type V = FieldValueView;

    open spec fn view(&self) -> FieldValueView {
        match self {
            FieldValue::Null => FieldValueView::Null,
            FieldValue::Bool(b) => FieldValueView::Bool(*b),
            FieldValue::Int64(i) => FieldValueView::Int64(*i),
            FieldValue::Uint64(u) => FieldValueView::Uint64(*u),
            FieldValue::String(s) => FieldValueView::String(s@),
            FieldValue::List(l) => FieldValueView::List(l@.map_values(|s: String| s@)),
            FieldValue::Hundredths(h) => FieldValueView::Hundredths(*h),
            FieldValue::Ratio(a, b) => FieldValueView::Ratio(*a, *b),
        }
    }
}

/// A copy of a list of texts.
pub fn copy_strings(v: &Vec<String>) -> (r: Vec<String>)
    ensures
        r@ == v@,
{
    let mut out: Vec<String> = Vec::new();
    let mut i: usize = 0;
    while i < v.len()
        invariant
            i <= v@.len(),
            out@ =~= v@.subrange(0, i as int),
        decreases v@.len() - i,
    {
        out.push(v[i].clone());
        i = i + 1;
    }
    assert(v@.subrange(0, i as int) =~= v@);
    out
}

/// A copy of an optional text.
pub fn copy_opt_string(v: &Option<String>) -> (r: Option<String>)
    ensures
        r == *v,
{
    match v {
        Some(s) => Some(s.clone()),
        None => None,
    }
}

/// A property of a vertex type of the schema.
#[derive(Clone, Copy, Debug, PartialEq, Eq, Structural)]
pub enum Property {
    PackageId,
    PackageName,
    PackageVersion,
    PackageLicense,
    PackageKeywords,
    PackageCategories,
    PackageManifestPath,
    PackageSourcePath,
    CratesIoTotalDownloads,
    CratesIoRecentDownloads,
    CratesIoVersionDownloads,
    CratesIoVersionsCount,
    CratesIoYanked,
    CratesIoYankedVersions,
    CratesIoYankedVersionsCount,
    CratesIoYankedRatio,
    Url,
    RepositoryName,
    RepositoryStarsCount,
    RepositoryForksCount,
    RepositoryOpenIssuesCount,
    RepositoryWatchersCount,
    RepositoryHasIssues,
    RepositoryArchived,
    RepositoryFork,
    UserUsername,
    UserUnixCreatedAt,
    UserFollowersCount,
    UserEmail,
    AdvisoryId,
    AdvisoryTitle,
    AdvisoryDescription,
    AdvisoryUnixDateReported,
    AdvisoryUnixDateWithdrawn,
    AdvisoryAffectedArch,
    AdvisoryAffectedOs,
    AdvisoryPatchedVersions,
    AdvisoryUnaffectedVersions,
    AdvisorySeverity,
    FunctionPath,
    FunctionVersions,
    ForbidsUnsafe,
    CountSafe,
    CountUnsafe,
    CountTotal,
    CountPercentageUnsafe,
    StatsLanguage,
    StatsFiles,
    StatsLines,
    StatsBlanks,
    StatsCode,
    StatsComments,
    StatsCommentsToCode,
    StatsInaccurate,
}

/// Relies on `str`'s `==`: whether two texts are the same.
#[verifier::external_body]
pub(crate) fn str_eq(a: &str, b: &str) -> (r: bool)
    ensures
        r == (a@ == b@),
{
    a == b
}

/// Whether the schema names `property` by the pair (`vertex_type`, `property_name`).
pub open spec fn names_property(vertex_type: Seq<char>, property_name: Seq<char>, property: Property) -> bool {
    match property {
        Property::PackageId => vertex_type == "Package"@ && property_name == "id"@,
        Property::PackageName => vertex_type == "Package"@ && property_name == "name"@,
        Property::PackageVersion => vertex_type == "Package"@ && property_name == "version"@,
        Property::PackageLicense => vertex_type == "Package"@ && property_name == "license"@,
        Property::PackageKeywords => vertex_type == "Package"@ && property_name == "keywords"@,
        Property::PackageCategories => vertex_type == "Package"@ && property_name == "categories"@,
        Property::PackageManifestPath => vertex_type == "Package"@ && property_name == "manifestPath"@,
        Property::PackageSourcePath => vertex_type == "Package"@ && property_name == "sourcePath"@,
        Property::CratesIoTotalDownloads => vertex_type == "Package"@ && property_name == "cratesIoTotalDownloads"@,
        Property::CratesIoRecentDownloads => vertex_type == "Package"@ && property_name == "cratesIoRecentDownloads"@,
        Property::CratesIoVersionDownloads => vertex_type == "Package"@ && property_name == "cratesIoVersionDownloads"@,
        Property::CratesIoVersionsCount => vertex_type == "Package"@ && property_name == "cratesIoVersionsCount"@,
        Property::CratesIoYanked => vertex_type == "Package"@ && property_name == "cratesIoYanked"@,
        Property::CratesIoYankedVersions => vertex_type == "Package"@ && property_name == "cratesIoYankedVersions"@,
        Property::CratesIoYankedVersionsCount => vertex_type == "Package"@ && property_name == "cratesIoYankedVersionsCount"@,
        Property::CratesIoYankedRatio => vertex_type == "Package"@ && property_name == "cratesIoYankedRatio"@,
        Property::Url => (vertex_type == "Webpage"@ || vertex_type == "Repository"@ || vertex_type == "GitHubRepository"@) && property_name == "url"@,
        Property::RepositoryName => vertex_type == "GitHubRepository"@ && property_name == "name"@,
        Property::RepositoryStarsCount => vertex_type == "GitHubRepository"@ && property_name == "starsCount"@,
        Property::RepositoryForksCount => vertex_type == "GitHubRepository"@ && property_name == "forksCount"@,
        Property::RepositoryOpenIssuesCount => vertex_type == "GitHubRepository"@ && property_name == "openIssuesCount"@,
        Property::RepositoryWatchersCount => vertex_type == "GitHubRepository"@ && property_name == "watchersCount"@,
        Property::RepositoryHasIssues => vertex_type == "GitHubRepository"@ && property_name == "hasIssues"@,
        Property::RepositoryArchived => vertex_type == "GitHubRepository"@ && property_name == "archived"@,
        Property::RepositoryFork => vertex_type == "GitHubRepository"@ && property_name == "fork"@,
        Property::UserUsername => vertex_type == "GitHubUser"@ && property_name == "username"@,
        Property::UserUnixCreatedAt => vertex_type == "GitHubUser"@ && property_name == "unixCreatedAt"@,
        Property::UserFollowersCount => vertex_type == "GitHubUser"@ && property_name == "followersCount"@,
        Property::UserEmail => vertex_type == "GitHubUser"@ && property_name == "email"@,
        Property::AdvisoryId => vertex_type == "Advisory"@ && property_name == "id"@,
        Property::AdvisoryTitle => vertex_type == "Advisory"@ && property_name == "title"@,
        Property::AdvisoryDescription => vertex_type == "Advisory"@ && property_name == "description"@,
        Property::AdvisoryUnixDateReported => vertex_type == "Advisory"@ && property_name == "unixDateReported"@,
        Property::AdvisoryUnixDateWithdrawn => vertex_type == "Advisory"@ && property_name == "unixDateWithdrawn"@,
        Property::AdvisoryAffectedArch => vertex_type == "Advisory"@ && property_name == "affectedArch"@,
        Property::AdvisoryAffectedOs => vertex_type == "Advisory"@ && property_name == "affectedOs"@,
        Property::AdvisoryPatchedVersions => vertex_type == "Advisory"@ && property_name == "patchedVersions"@,
        Property::AdvisoryUnaffectedVersions => vertex_type == "Advisory"@ && property_name == "unaffectedVersions"@,
        Property::AdvisorySeverity => vertex_type == "Advisory"@ && property_name == "severity"@,
        Property::FunctionPath => vertex_type == "AffectedFunctionVersions"@ && property_name == "functionPath"@,
        Property::FunctionVersions => vertex_type == "AffectedFunctionVersions"@ && property_name == "versions"@,
        Property::ForbidsUnsafe => vertex_type == "GeigerUnsafety"@ && property_name == "forbidsUnsafe"@,
        Property::CountSafe => vertex_type == "GeigerCount"@ && property_name == "safe"@,
        Property::CountUnsafe => vertex_type == "GeigerCount"@ && property_name == "unsafe"@,
        Property::CountTotal => vertex_type == "GeigerCount"@ && property_name == "total"@,
        Property::CountPercentageUnsafe => vertex_type == "GeigerCount"@ && property_name == "percentageUnsafe"@,
        Property::StatsLanguage => (vertex_type == "LanguageCodeStats"@ || vertex_type == "LanguageBlob"@) && property_name == "language"@,
        Property::StatsFiles => (vertex_type == "LanguageCodeStats"@ || vertex_type == "LanguageBlob"@) && property_name == "files"@,
        Property::StatsLines => (vertex_type == "LanguageCodeStats"@ || vertex_type == "LanguageBlob"@) && property_name == "lines"@,
        Property::StatsBlanks => (vertex_type == "LanguageCodeStats"@ || vertex_type == "LanguageBlob"@) && property_name == "blanks"@,
        Property::StatsCode => (vertex_type == "LanguageCodeStats"@ || vertex_type == "LanguageBlob"@) && property_name == "code"@,
        Property::StatsComments => (vertex_type == "LanguageCodeStats"@ || vertex_type == "LanguageBlob"@) && property_name == "comments"@,
        Property::StatsCommentsToCode => (vertex_type == "LanguageCodeStats"@ || vertex_type == "LanguageBlob"@) && property_name == "commentsToCode"@,
        Property::StatsInaccurate => vertex_type == "LanguageCodeStats"@ && property_name == "inaccurate"@,
    }
}

impl Property {
    /// The property that the schema names by a type and a property name;
    /// `None` for a pair that the schema does not have.
    pub fn from_names(vertex_type: &str, property_name: &str) -> (r: Option<Property>)
        ensures
            r matches Some(p) ==> names_property(vertex_type@, property_name@, p),
            r is None ==> forall|p: Property| !names_property(vertex_type@, property_name@, p),
    {
        if str_eq(vertex_type, "Package") && str_eq(property_name, "id") {
            return Some(Property::PackageId);
        }
        if str_eq(vertex_type, "Package") && str_eq(property_name, "name") {
            return Some(Property::PackageName);
        }
        if str_eq(vertex_type, "Package") && str_eq(property_name, "version") {
            return Some(Property::PackageVersion);
        }
        if str_eq(vertex_type, "Package") && str_eq(property_name, "license") {
            return Some(Property::PackageLicense);
        }
        if str_eq(vertex_type, "Package") && str_eq(property_name, "keywords") {
            return Some(Property::PackageKeywords);
        }
        if str_eq(vertex_type, "Package") && str_eq(property_name, "categories") {
            return Some(Property::PackageCategories);
        }
        if str_eq(vertex_type, "Package") && str_eq(property_name, "manifestPath") {
            return Some(Property::PackageManifestPath);
        }
        if str_eq(vertex_type, "Package") && str_eq(property_name, "sourcePath") {
            return Some(Property::PackageSourcePath);
        }
        if str_eq(vertex_type, "Package") && str_eq(property_name, "cratesIoTotalDownloads") {
            return Some(Property::CratesIoTotalDownloads);
        }
        if str_eq(vertex_type, "Package") && str_eq(property_name, "cratesIoRecentDownloads") {
            return Some(Property::CratesIoRecentDownloads);
        }
        if str_eq(vertex_type, "Package") && str_eq(property_name, "cratesIoVersionDownloads") {
            return Some(Property::CratesIoVersionDownloads);
        }
        if str_eq(vertex_type, "Package") && str_eq(property_name, "cratesIoVersionsCount") {
            return Some(Property::CratesIoVersionsCount);
        }
        if str_eq(vertex_type, "Package") && str_eq(property_name, "cratesIoYanked") {
            return Some(Property::CratesIoYanked);
        }
        if str_eq(vertex_type, "Package") && str_eq(property_name, "cratesIoYankedVersions") {
            return Some(Property::CratesIoYankedVersions);
        }
        if str_eq(vertex_type, "Package") && str_eq(property_name, "cratesIoYankedVersionsCount") {
            return Some(Property::CratesIoYankedVersionsCount);
        }
        if str_eq(vertex_type, "Package") && str_eq(property_name, "cratesIoYankedRatio") {
            return Some(Property::CratesIoYankedRatio);
        }
        if (str_eq(vertex_type, "Webpage") || str_eq(vertex_type, "Repository") || str_eq(vertex_type, "GitHubRepository")) && str_eq(property_name, "url") {
            return Some(Property::Url);
        }
        if str_eq(vertex_type, "GitHubRepository") && str_eq(property_name, "name") {
            return Some(Property::RepositoryName);
        }
        if str_eq(vertex_type, "GitHubRepository") && str_eq(property_name, "starsCount") {
            return Some(Property::RepositoryStarsCount);
        }
        if str_eq(vertex_type, "GitHubRepository") && str_eq(property_name, "forksCount") {
            return Some(Property::RepositoryForksCount);
        }
        if str_eq(vertex_type, "GitHubRepository") && str_eq(property_name, "openIssuesCount") {
            return Some(Property::RepositoryOpenIssuesCount);
        }
        if str_eq(vertex_type, "GitHubRepository") && str_eq(property_name, "watchersCount") {
            return Some(Property::RepositoryWatchersCount);
        }
        if str_eq(vertex_type, "GitHubRepository") && str_eq(property_name, "hasIssues") {
            return Some(Property::RepositoryHasIssues);
        }
        if str_eq(vertex_type, "GitHubRepository") && str_eq(property_name, "archived") {
            return Some(Property::RepositoryArchived);
        }
        if str_eq(vertex_type, "GitHubRepository") && str_eq(property_name, "fork") {
            return Some(Property::RepositoryFork);
        }
        if str_eq(vertex_type, "GitHubUser") && str_eq(property_name, "username") {
            return Some(Property::UserUsername);
        }
        if str_eq(vertex_type, "GitHubUser") && str_eq(property_name, "unixCreatedAt") {
            return Some(Property::UserUnixCreatedAt);
        }
        if str_eq(vertex_type, "GitHubUser") && str_eq(property_name, "followersCount") {
            return Some(Property::UserFollowersCount);
        }
        if str_eq(vertex_type, "GitHubUser") && str_eq(property_name, "email") {
            return Some(Property::UserEmail);
        }
        if str_eq(vertex_type, "Advisory") && str_eq(property_name, "id") {
            return Some(Property::AdvisoryId);
        }
        if str_eq(vertex_type, "Advisory") && str_eq(property_name, "title") {
            return Some(Property::AdvisoryTitle);
        }
        if str_eq(vertex_type, "Advisory") && str_eq(property_name, "description") {
            return Some(Property::AdvisoryDescription);
        }
        if str_eq(vertex_type, "Advisory") && str_eq(property_name, "unixDateReported") {
            return Some(Property::AdvisoryUnixDateReported);
        }
        if str_eq(vertex_type, "Advisory") && str_eq(property_name, "unixDateWithdrawn") {
            return Some(Property::AdvisoryUnixDateWithdrawn);
        }
        if str_eq(vertex_type, "Advisory") && str_eq(property_name, "affectedArch") {
            return Some(Property::AdvisoryAffectedArch);
        }
        if str_eq(vertex_type, "Advisory") && str_eq(property_name, "affectedOs") {
            return Some(Property::AdvisoryAffectedOs);
        }
        if str_eq(vertex_type, "Advisory") && str_eq(property_name, "patchedVersions") {
            return Some(Property::AdvisoryPatchedVersions);
        }
        if str_eq(vertex_type, "Advisory") && str_eq(property_name, "unaffectedVersions") {
            return Some(Property::AdvisoryUnaffectedVersions);
        }
        if str_eq(vertex_type, "Advisory") && str_eq(property_name, "severity") {
            return Some(Property::AdvisorySeverity);
        }
        if str_eq(vertex_type, "AffectedFunctionVersions") && str_eq(property_name, "functionPath") {
            return Some(Property::FunctionPath);
        }
        if str_eq(vertex_type, "AffectedFunctionVersions") && str_eq(property_name, "versions") {
            return Some(Property::FunctionVersions);
        }
        if str_eq(vertex_type, "GeigerUnsafety") && str_eq(property_name, "forbidsUnsafe") {
            return Some(Property::ForbidsUnsafe);
        }
        if str_eq(vertex_type, "GeigerCount") && str_eq(property_name, "safe") {
            return Some(Property::CountSafe);
        }
        if str_eq(vertex_type, "GeigerCount") && str_eq(property_name, "unsafe") {
            return Some(Property::CountUnsafe);
        }
        if str_eq(vertex_type, "GeigerCount") && str_eq(property_name, "total") {
            return Some(Property::CountTotal);
        }
        if str_eq(vertex_type, "GeigerCount") && str_eq(property_name, "percentageUnsafe") {
            return Some(Property::CountPercentageUnsafe);
        }
        if (str_eq(vertex_type, "LanguageCodeStats") || str_eq(vertex_type, "LanguageBlob")) && str_eq(property_name, "language") {
            return Some(Property::StatsLanguage);
        }
        if (str_eq(vertex_type, "LanguageCodeStats") || str_eq(vertex_type, "LanguageBlob")) && str_eq(property_name, "files") {
            return Some(Property::StatsFiles);
        }
        if (str_eq(vertex_type, "LanguageCodeStats") || str_eq(vertex_type, "LanguageBlob")) && str_eq(property_name, "lines") {
            return Some(Property::StatsLines);
        }
        if (str_eq(vertex_type, "LanguageCodeStats") || str_eq(vertex_type, "LanguageBlob")) && str_eq(property_name, "blanks") {
            return Some(Property::StatsBlanks);
        }
        if (str_eq(vertex_type, "LanguageCodeStats") || str_eq(vertex_type, "LanguageBlob")) && str_eq(property_name, "code") {
            return Some(Property::StatsCode);
        }
        if (str_eq(vertex_type, "LanguageCodeStats") || str_eq(vertex_type, "LanguageBlob")) && str_eq(property_name, "comments") {
            return Some(Property::StatsComments);
        }
        if (str_eq(vertex_type, "LanguageCodeStats") || str_eq(vertex_type, "LanguageBlob")) && str_eq(property_name, "commentsToCode") {
            return Some(Property::StatsCommentsToCode);
        }
        if str_eq(vertex_type, "LanguageCodeStats") && str_eq(property_name, "inaccurate") {
            return Some(Property::StatsInaccurate);
        }
        proof {
            assert forall|p: Property| !names_property(vertex_type@, property_name@, p) by {
                match p {
                    Property::PackageId => {},
                    Property::PackageName => {},
                    Property::PackageVersion => {},
                    Property::PackageLicense => {},
                    Property::PackageKeywords => {},
                    Property::PackageCategories => {},
                    Property::PackageManifestPath => {},
                    Property::PackageSourcePath => {},
                    Property::CratesIoTotalDownloads => {},
                    Property::CratesIoRecentDownloads => {},
                    Property::CratesIoVersionDownloads => {},
                    Property::CratesIoVersionsCount => {},
                    Property::CratesIoYanked => {},
                    Property::CratesIoYankedVersions => {},
                    Property::CratesIoYankedVersionsCount => {},
                    Property::CratesIoYankedRatio => {},
                    Property::Url => {},
                    Property::RepositoryName => {},
                    Property::RepositoryStarsCount => {},
                    Property::RepositoryForksCount => {},
                    Property::RepositoryOpenIssuesCount => {},
                    Property::RepositoryWatchersCount => {},
                    Property::RepositoryHasIssues => {},
                    Property::RepositoryArchived => {},
                    Property::RepositoryFork => {},
                    Property::UserUsername => {},
                    Property::UserUnixCreatedAt => {},
                    Property::UserFollowersCount => {},
                    Property::UserEmail => {},
                    Property::AdvisoryId => {},
                    Property::AdvisoryTitle => {},
                    Property::AdvisoryDescription => {},
                    Property::AdvisoryUnixDateReported => {},
                    Property::AdvisoryUnixDateWithdrawn => {},
                    Property::AdvisoryAffectedArch => {},
                    Property::AdvisoryAffectedOs => {},
                    Property::AdvisoryPatchedVersions => {},
                    Property::AdvisoryUnaffectedVersions => {},
                    Property::AdvisorySeverity => {},
                    Property::FunctionPath => {},
                    Property::FunctionVersions => {},
                    Property::ForbidsUnsafe => {},
                    Property::CountSafe => {},
                    Property::CountUnsafe => {},
                    Property::CountTotal => {},
                    Property::CountPercentageUnsafe => {},
                    Property::StatsLanguage => {},
                    Property::StatsFiles => {},
                    Property::StatsLines => {},
                    Property::StatsBlanks => {},
                    Property::StatsCode => {},
                    Property::StatsComments => {},
                    Property::StatsCommentsToCode => {},
                    Property::StatsInaccurate => {},
                }
            }
        }
        None
    }
}

} // verus!
