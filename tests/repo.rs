use indicate::repo::{GitHubRepositoryId, RepoId};

fn github(owner: &str, repo: &str) -> RepoId {
    RepoId::GitHub(GitHubRepositoryId::new(owner.to_string(), repo.to_string()))
}

#[test]
fn parse_repo_url() {
    let cases = [
        ("https://github.com/esek/ekorre", github("esek", "ekorre")),
        ("https://github.com/esek/ekorre/", github("esek", "ekorre")),
        ("https://github.com/esek/ekorre.git", github("esek", "ekorre")),
        ("https://github.com/helix-editor/helix/tree/master/helix-term", github("helix-editor", "helix")),
        ("https://gitlab.com/jspngh/rfid-rs", RepoId::GitLab("https://gitlab.com/jspngh/rfid-rs".to_string())),
    ];
    for (url, expected) in cases {
        assert_eq!(RepoId::from_url(url), expected, "{url}");
    }
}

#[test]
fn classifier_examples() {
    assert_eq!(RepoId::from_url("https://github.com/acme/widget"), github("acme", "widget"));
    assert_eq!(RepoId::from_url("https://github.com/acme/widget.git"), github("acme", "widget"));
    assert_eq!(RepoId::from_url("https://github.com/acme/widget/tree/main/sub"), github("acme", "widget"));
    assert_eq!(
        RepoId::from_url("https://example.com/acme/widget"),
        RepoId::Unknown("https://example.com/acme/widget".to_string())
    );
}

#[test]
fn classifier_unknown_cases() {
    assert_eq!(RepoId::from_url("not a url"), RepoId::Unknown("not a url".to_string()));
    assert_eq!(
        RepoId::from_url("https://github.com/acme"),
        RepoId::Unknown("https://github.com/acme".to_string())
    );
    assert_eq!(RepoId::from_url("https://github.com//acme//widget"), github("acme", "widget"));
}

#[test]
fn repository_id_parts() {
    let id = GitHubRepositoryId::new("o".to_string(), "r".to_string());
    assert_eq!(id.owner(), "o");
    assert_eq!(id.repo(), "r");
}
