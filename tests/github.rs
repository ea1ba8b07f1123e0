use indicate::github::{
    quota_checked, FetchOutcome, ForgeRepository, ForgeStep, ForgeUser, GitHubClient, QuotaStatus,
};
use indicate::repo::GitHubRepositoryId;

fn repo(name: &str) -> ForgeRepository {
    ForgeRepository {
        name: name.to_string(),
        html_url: format!("https://github.com/acme/{name}"),
        stargazers_count: 5,
        forks_count: 1,
        open_issues_count: 2,
        watchers_count: 3,
        has_issues: true,
        archived: false,
        fork: false,
        owner_login: Some("acme".to_string()),
    }
}

fn id(name: &str) -> GitHubRepositoryId {
    GitHubRepositoryId::new("acme".to_string(), name.to_string())
}

#[test]
fn found_repository_is_cached() {
    let mut client = GitHubClient::new(false);
    assert_eq!(client.begin_repository(&id("widget")), ForgeStep::Fetch);
    let step = client.repository_fetched(&id("widget"), FetchOutcome::Found(repo("widget")), false);
    assert_eq!(step, ForgeStep::Done);
    assert_eq!(client.begin_repository(&id("widget")), ForgeStep::Done);
    assert_eq!(client.get_repository(&id("widget")).unwrap().name, "widget");
}

#[test]
fn not_found_is_cached_but_failure_is_not() {
    let mut client = GitHubClient::new(false);
    client.repository_fetched(&id("gone"), FetchOutcome::NotFound, false);
    assert_eq!(client.begin_repository(&id("gone")), ForgeStep::Done);
    assert!(client.get_repository(&id("gone")).is_none());

    let step = client.repository_fetched(&id("flaky"), FetchOutcome::Failed, false);
    assert_eq!(step, ForgeStep::Done);
    assert_eq!(client.begin_repository(&id("flaky")), ForgeStep::Fetch);
}

#[test]
fn quota_wait_retries_once() {
    let mut client = GitHubClient::new(true);
    assert!(client.awaiting_quota());
    let step = client.repository_fetched(&id("w"), FetchOutcome::Failed, false);
    assert_eq!(step, ForgeStep::CheckQuota);
    assert_eq!(
        quota_checked(QuotaStatus::Exhausted { reset_ms: 61_000 }, 1_000),
        ForgeStep::WaitAndRetry { millis: 60_000 }
    );
    assert_eq!(
        quota_checked(QuotaStatus::Exhausted { reset_ms: 1_000 }, 5_000),
        ForgeStep::WaitAndRetry { millis: 0 }
    );
    assert_eq!(quota_checked(QuotaStatus::Available, 0), ForgeStep::Done);
    assert_eq!(quota_checked(QuotaStatus::Unknown, 0), ForgeStep::Done);
    let step = client.repository_fetched(&id("w"), FetchOutcome::Failed, true);
    assert_eq!(step, ForgeStep::Done);
}

#[test]
fn users_are_cached() {
    let mut client = GitHubClient::new(false);
    assert_eq!(client.begin_user("acme"), ForgeStep::Fetch);
    let user = ForgeUser {
        login: "acme".to_string(),
        created_at: Some(1_600_000_000),
        followers: 12,
        email: String::new(),
    };
    client.user_fetched("acme", FetchOutcome::Found(user), false);
    assert_eq!(client.begin_user("acme"), ForgeStep::Done);
    assert_eq!(client.get_public_user("acme").unwrap().followers, 12);
    assert!(client.get_public_user("other").is_none());
}
