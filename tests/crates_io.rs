use indicate::crates_io::{CratesIoClient, RegistryRecord, RegistryVersion, YankedRatio};
use indicate::version::{NameVersion, Version};

fn version(num: &str, downloads: u64, yanked: bool) -> RegistryVersion {
    RegistryVersion { num: num.to_string(), downloads, yanked }
}

fn record(versions: Vec<RegistryVersion>) -> RegistryRecord {
    RegistryRecord { downloads: 1000, recent_downloads: Some(10), versions }
}

fn ten_versions_two_yanked() -> RegistryRecord {
    record(
        (0..10)
            .map(|i| version(&format!("0.{i}.0"), 100 + i, i == 3 || i == 7))
            .collect(),
    )
}

#[test]
fn yanked_ratio_of_ten_versions() {
    let rec = ten_versions_two_yanked();
    let ratio = rec.yanked_ratio().unwrap();
    assert_eq!(ratio, YankedRatio { yanked: 2, total: 10 });
    assert_eq!(ratio.yanked as f64 / ratio.total as f64, 0.2);
    assert_eq!(rec.yanked_versions(), vec!["0.3.0".to_string(), "0.7.0".to_string()]);
    assert_eq!(rec.yanked_versions_count(), 2);
}

#[test]
fn yanked_ratio_without_versions() {
    assert_eq!(record(vec![]).yanked_ratio(), None);
}

fn semver(major: u64, minor: u64, patch: u64) -> Version {
    Version { major, minor, patch, pre: String::new(), build: String::new() }
}

#[test]
fn version_lookups_parse_registry_numbers() {
    let rec = record(vec![
        version("not-a-version", 1, false),
        version("1.2.3", 42, false),
        version("1.2.4-beta.1", 7, true),
    ]);
    assert_eq!(rec.version_downloads(&semver(1, 2, 3)), Some(42));
    assert_eq!(rec.yanked(&semver(1, 2, 3)), Some(false));
    let beta = Version { pre: "beta.1".to_string(), ..semver(1, 2, 4) };
    assert_eq!(rec.yanked(&beta), Some(true));
    assert_eq!(rec.version_downloads(&semver(1, 2, 4)), None);
    assert_eq!(rec.version_downloads(&semver(9, 9, 9)), None);
}

#[test]
fn client_caches_records_and_failures() {
    let mut client = CratesIoClient::new();
    assert!(client.needs_fetch("serde"));
    assert_eq!(client.total_downloads("serde"), None);
    client.store("serde", Some(ten_versions_two_yanked()));
    assert!(!client.needs_fetch("serde"));
    assert_eq!(client.total_downloads("serde"), Some(1000));
    assert_eq!(client.recent_downloads("serde"), Some(10));
    assert_eq!(client.versions_count("serde"), Some(10));
    assert_eq!(client.yanked_versions_count("serde"), Some(2));
    assert_eq!(client.yanked_ratio("serde"), Some(YankedRatio { yanked: 2, total: 10 }));
    let nv = NameVersion::new("serde".to_string(), semver(0, 4, 0));
    assert_eq!(client.version_downloads(&nv), Some(104));
    assert_eq!(client.yanked(&nv), Some(false));
    assert_eq!(client.yanked_versions("serde").unwrap().len(), 2);

    // A failed fetch is remembered, and not asked for again.
    client.store("missing", None);
    assert!(!client.needs_fetch("missing"));
    assert_eq!(client.total_downloads("missing"), None);
    assert!(client.crate_response("missing").is_none());
}

#[test]
fn second_lookup_answers_like_the_first() {
    let mut client = CratesIoClient::new();
    let mut calls = 0;
    for _ in 0..2 {
        if client.needs_fetch("rand") {
            calls += 1;
            client.store("rand", Some(record(vec![version("0.8.5", 5, false)])));
        }
        assert_eq!(client.versions_count("rand"), Some(1));
    }
    assert_eq!(calls, 1);
}
