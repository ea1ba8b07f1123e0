use indicate::advisory::advisory_queries;
use indicate::errors::FileParseError;
use indicate::query::{query_format, QueryFormat};
use indicate::manifest::ManifestPath;

#[test]
fn package_names_ignore_dashes_and_case() {
    assert!(ManifestPath::equal_package_names("foo-bar", "Foo_Bar"));
    assert!(ManifestPath::equal_package_names("serde_json", "serde-json"));
    assert!(!ManifestPath::equal_package_names("serde", "serde-json"));
}

#[test]
fn workspace_member_is_found_by_name() {
    let names = vec![None, Some("other".to_string()), Some("my-crate".to_string())];
    assert_eq!(ManifestPath::matching_manifest(&names, "My_Crate"), Some(2));
    assert_eq!(ManifestPath::matching_manifest(&names, "absent"), None);
    let path = ManifestPath::from_resolved("/w/Cargo.toml".to_string());
    assert_eq!(path.as_path(), "/w/Cargo.toml");
}

#[test]
fn advisory_queries_add_a_withdrawn_pass() {
    let one = advisory_queries("libc", false, None, None, None);
    assert_eq!(one.len(), 1);
    assert!(!one[0].withdrawn);
    let two = advisory_queries("libc", true, Some("x86_64".to_string()), None, Some("high".to_string()));
    assert_eq!(two.len(), 2);
    assert_eq!(two[0].package_name, "libc");
    assert!(two[1].withdrawn);
    assert_eq!(two[1].arch.as_deref(), Some("x86_64"));
    assert_eq!(two[1].min_severity.as_deref(), Some("high"));
}

#[test]
fn query_files_are_read_by_extension() {
    assert_eq!(query_format("q.json", Some("json")).ok(), Some(QueryFormat::Json));
    assert_eq!(query_format("q.ron", Some("ron")).ok(), Some(QueryFormat::Ron));
    match query_format("q.gql", Some("gql")) {
        Err(FileParseError::UnsupportedFileExtension { ext, path }) => {
            assert_eq!(ext, "gql");
            assert_eq!(path, "q.gql");
        }
        _ => panic!("expected an unsupported extension"),
    }
    assert!(matches!(query_format("q", None), Err(FileParseError::UnknownFileExtension(p)) if p == "q"));
}
