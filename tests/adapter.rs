use indicate::adapter::{Edge, IndicateAdapter};
use indicate::crates_io::{CratesIoClient, RegistryRecord, RegistryVersion};
use indicate::dependency::{DependencyIndex, DependencyKind, Metadata, Node, NodeDep, Package};
use indicate::geiger::{
    GeigerCategories, GeigerClient, GeigerCount, GeigerOutput, GeigerPackage,
    GeigerPackageOutput, GeigerUnsafety,
};
use indicate::github::{FetchOutcome, ForgeRepository, GitHubClient};
use indicate::repo::GitHubRepositoryId;
use indicate::version::{NameVersion, Version};
use indicate::vertex::{
    AdvisoryDate, AdvisoryRecord, Affected, AffectedFunction, CodeStatsRecord, FieldValue,
    Property, Vertex,
};

fn v010() -> Version {
    Version { major: 0, minor: 1, patch: 0, pre: String::new(), build: String::new() }
}

fn package(id: u64, name: &str, repository: Option<&str>) -> Package {
    Package {
        id,
        id_text: format!("{name} 0.1.0 (registry)"),
        name: name.to_string(),
        version: v010(),
        version_text: "0.1.0".to_string(),
        license: Some("MIT".to_string()),
        repository: repository.map(str::to_string),
        manifest_path: format!("/src/{name}/Cargo.toml"),
        keywords: vec!["graph".to_string()],
        categories: vec![],
    }
}

fn count(safe: u32, unsafe_: u32) -> GeigerCount {
    GeigerCount { safe, unsafe_ }
}

fn cats() -> GeigerCategories {
    GeigerCategories {
        functions: count(1, 1),
        exprs: count(2, 2),
        item_impls: count(0, 0),
        item_traits: count(0, 0),
        methods: count(1, 0),
    }
}

fn adapter() -> IndicateAdapter {
    let metadata = Metadata {
        packages: vec![
            package(0, "root", Some("https://github.com/acme/root")),
            package(1, "dep", Some("https://gitlab.com/acme/dep")),
        ],
        nodes: vec![
            Node { id: 0, deps: vec![NodeDep { pkg: 1, dep_kinds: vec![DependencyKind::Normal] }] },
            Node { id: 1, deps: vec![] },
        ],
        root: Some(0),
    };
    let index = DependencyIndex::build(metadata).ok().unwrap();
    let mut github = GitHubClient::new(false);
    github.repository_fetched(
        &GitHubRepositoryId::new("acme".to_string(), "root".to_string()),
        FetchOutcome::Found(ForgeRepository {
            name: "root".to_string(),
            html_url: "https://github.com/acme/root".to_string(),
            stargazers_count: 7,
            forks_count: 0,
            open_issues_count: 0,
            watchers_count: 7,
            has_issues: true,
            archived: false,
            fork: false,
            owner_login: Some("acme".to_string()),
        }),
        false,
    );
    let mut crates_io = CratesIoClient::new();
    crates_io.store(
        "dep",
        Some(RegistryRecord {
            downloads: 99,
            recent_downloads: None,
            versions: vec![RegistryVersion { num: "0.1.0".to_string(), downloads: 9, yanked: true }],
        }),
    );
    let geiger = GeigerClient::from_output(GeigerOutput {
        packages: vec![GeigerPackageOutput {
            package: GeigerPackage { id: NameVersion::new("dep".to_string(), v010()) },
            unsafety: GeigerUnsafety { used: cats(), unused: cats(), forbids_unsafe: true },
        }],
    });
    IndicateAdapter { index, github, crates_io, geiger }
}

fn as_string(v: FieldValue) -> String {
    match v {
        FieldValue::String(s) => s,
        _ => panic!("not a string"),
    }
}

#[test]
fn package_properties() {
    let a = adapter();
    let dep = Vertex::Package(1);
    assert_eq!(as_string(a.resolve_property(&dep, Property::PackageName)), "dep");
    assert_eq!(as_string(a.resolve_property(&dep, Property::PackageVersion)), "0.1.0");
    assert_eq!(as_string(a.resolve_property(&dep, Property::PackageLicense)), "MIT");
    assert_eq!(as_string(a.resolve_property(&dep, Property::PackageSourcePath)), "/src/dep");
    assert!(matches!(a.resolve_property(&dep, Property::CratesIoTotalDownloads), FieldValue::Uint64(99)));
    assert!(matches!(a.resolve_property(&dep, Property::CratesIoRecentDownloads), FieldValue::Null));
    assert!(matches!(a.resolve_property(&dep, Property::CratesIoVersionDownloads), FieldValue::Uint64(9)));
    assert!(matches!(a.resolve_property(&dep, Property::CratesIoYanked), FieldValue::Bool(true)));
    assert!(matches!(a.resolve_property(&dep, Property::CratesIoYankedRatio), FieldValue::Ratio(1, 1)));
    let root = Vertex::Package(0);
    assert!(matches!(a.resolve_property(&root, Property::CratesIoTotalDownloads), FieldValue::Null));
    match a.resolve_property(&root, Property::PackageKeywords) {
        FieldValue::List(l) => assert_eq!(l, vec!["graph".to_string()]),
        _ => panic!("not a list"),
    }
}

#[test]
fn property_names_follow_the_schema() {
    assert_eq!(Property::from_names("Package", "cratesIoYankedRatio"), Some(Property::CratesIoYankedRatio));
    assert_eq!(Property::from_names("GitHubRepository", "url"), Some(Property::Url));
    assert_eq!(Property::from_names("LanguageBlob", "commentsToCode"), Some(Property::StatsCommentsToCode));
    assert_eq!(Property::from_names("LanguageBlob", "inaccurate"), None);
    assert_eq!(Property::from_names("Package", "nope"), None);
}

#[test]
fn geiger_and_stats_properties() {
    let a = adapter();
    let c = Vertex::GeigerCount(count(2, 1));
    assert!(matches!(a.resolve_property(&c, Property::CountTotal), FieldValue::Uint64(3)));
    assert!(matches!(a.resolve_property(&c, Property::CountPercentageUnsafe), FieldValue::Hundredths(3333)));
    let s = Vertex::LanguageBlob(CodeStatsRecord {
        language: "Rust".to_string(),
        files: 2,
        blanks: 3,
        code: 10,
        comments: 5,
        inaccurate: false,
    });
    assert!(matches!(a.resolve_property(&s, Property::StatsLines), FieldValue::Uint64(18)));
    assert!(matches!(a.resolve_property(&s, Property::StatsCommentsToCode), FieldValue::Ratio(5, 10)));
}

#[test]
fn advisory_properties() {
    let a = adapter();
    let adv = Vertex::Advisory(AdvisoryRecord {
        id: "RUSTSEC-2020-0001".to_string(),
        title: "t".to_string(),
        description: "d".to_string(),
        date: AdvisoryDate { year: 2020, month: 1, day: 2 },
        withdrawn: None,
        affected: Some(Affected {
            arch: vec!["x86_64".to_string()],
            os: vec![],
            functions: vec![AffectedFunction { path: "a::b".to_string(), versions: vec!["< 1.0".to_string()] }],
        }),
        patched: vec![">= 1.0".to_string()],
        unaffected: vec![],
        severity: None,
    });
    assert!(matches!(a.resolve_property(&adv, Property::AdvisoryUnixDateReported), FieldValue::Int64(1577923200)));
    assert!(matches!(a.resolve_property(&adv, Property::AdvisoryUnixDateWithdrawn), FieldValue::Null));
    assert!(matches!(a.resolve_property(&adv, Property::AdvisorySeverity), FieldValue::Null));
    let funcs = a.resolve_neighbors(&adv, Edge::AdvisoryAffectedFunctions);
    assert_eq!(funcs.len(), 1);
    assert_eq!(as_string(a.resolve_property(&funcs[0], Property::FunctionPath)), "a::b");
}

#[test]
fn neighbors_and_coercion() {
    let a = adapter();
    let deps = a.resolve_neighbors(&Vertex::Package(0), Edge::PackageDependencies);
    assert!(matches!(deps.as_slice(), [Vertex::Package(1)]));

    let repo = a.resolve_neighbors(&Vertex::Package(0), Edge::PackageRepository);
    assert!(matches!(&repo[0], Vertex::GitHubRepository(r) if r.stargazers_count == 7));
    assert!(a.resolve_coercion(&repo[0], "GitHubRepository"));
    assert!(a.resolve_coercion(&repo[0], "Repository"));

    let gitlab = a.resolve_neighbors(&Vertex::Package(1), Edge::PackageRepository);
    assert!(matches!(&gitlab[0], Vertex::Repository(u) if u == "https://gitlab.com/acme/dep"));
    assert!(!a.resolve_coercion(&gitlab[0], "GitHubRepository"));
    assert!(a.resolve_coercion(&gitlab[0], "Repository"));
    assert!(!a.resolve_coercion(&Vertex::Webpage("x".to_string()), "Repository"));

    let geiger = a.resolve_neighbors(&Vertex::Package(1), Edge::PackageGeiger);
    assert!(matches!(&geiger[0], Vertex::GeigerUnsafety(u) if u.forbids_unsafe));
    assert!(a.resolve_neighbors(&Vertex::Package(0), Edge::PackageGeiger).is_empty());
    let total = a.resolve_neighbors(&geiger[0], Edge::UnsafetyTotal);
    let exprs = a.resolve_neighbors(&total[0], Edge::CategoriesExprs);
    assert!(matches!(&exprs[0], Vertex::GeigerCount(c) if *c == count(4, 4)));

    assert_eq!(a.dependencies(true), vec![0, 1]);
    assert_eq!(a.dependencies(false), vec![1]);
    assert!(a.transitive_dependencies().is_empty());
    assert!(matches!(a.root_package(), Vertex::Package(0)));
    assert_eq!(a.root_package().typename(), "Package");
    assert_eq!(repo[0].typename(), "GitHubRepository");
    assert_eq!(total[0].typename(), "GeigerCategories");
}
