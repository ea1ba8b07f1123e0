//! The forge client: repositories and users looked up on GitHub, cached for
//! the session, with an optional wait for a new request quota.
//!
//! The network calls are made by the caller. This client decides, step by
//! step, what to do next: answer from the cache, make the call, check the
//! quota, or wait for the quota to reset and retry once.
use vstd::prelude::*;

use crate::cache::{Cache, CacheKey};
use crate::repo::GitHubRepositoryId;

verus! {

/// A repository as the forge describes it.
pub struct ForgeRepository {
    pub name: String,
    pub html_url: String,
    pub stargazers_count: i64,
    pub forks_count: i64,
    pub open_issues_count: i64,
    pub watchers_count: i64,
    pub has_issues: bool,
    pub archived: bool,
    pub fork: bool,
    pub owner_login: Option<String>,
}

impl ForgeRepository {
    /// A copy of this record.
    pub fn duplicate(&self) -> (r: ForgeRepository)
        ensures
            r == *self,
    {
        ForgeRepository {
            name: self.name.clone(),
            html_url: self.html_url.clone(),
            stargazers_count: self.stargazers_count,
            forks_count: self.forks_count,
            open_issues_count: self.open_issues_count,
            watchers_count: self.watchers_count,
            has_issues: self.has_issues,
            archived: self.archived,
            fork: self.fork,
            owner_login: match &self.owner_login {
                Some(o) => Some(o.clone()),
                None => None,
            },
        }
    }
}

/// A user as the forge describes it.
pub struct ForgeUser {
    pub login: String,
    /// Creation time in seconds since the Unix epoch.
    pub created_at: Option<i64>,
    pub followers: i64,
    pub email: String,
}

impl ForgeUser {
    /// A copy of this record.
    pub fn duplicate(&self) -> (r: ForgeUser)
        ensures
            r == *self,
    {
        ForgeUser {
            login: self.login.clone(),
            created_at: self.created_at,
            followers: self.followers,
            email: self.email.clone(),
        }
    }
}

/// What one network call returned.
pub enum FetchOutcome<T> {
    Found(T),
    /// The forge answered that there is no such thing.
    NotFound,
    /// The call failed for another reason (network, quota, ...).
    Failed,
}

/// What the forge's quota endpoint reported.
pub enum QuotaStatus {
    /// No requests are left until `reset_ms` (milliseconds since the epoch).
    Exhausted { reset_ms: i64 },
    /// Requests are left.
    Available,
    /// The quota could not be checked.
    Unknown,
}

/// What the caller does next in a lookup.
#[derive(Clone, Copy, Debug, PartialEq, Eq, Structural)]
pub enum ForgeStep {
    /// Make the network call.
    Fetch,
    /// Ask the forge for the quota status.
    CheckQuota,
    /// Sleep this many milliseconds, then make the call once more.
    WaitAndRetry { millis: u64 },
    /// Stop; the answer is what the cache now holds (nothing where the call
    /// failed without a definite answer).
    Done,
}

/// The step after a call returned `outcome`: a definite answer ends the
/// lookup; a failure leads to a quota check only on the first attempt of a
/// client that waits for quota.
pub open spec fn step_after_fetch<T>(outcome: FetchOutcome<T>, await_quota: bool, retried: bool) -> ForgeStep {
    match outcome {
        FetchOutcome::Failed => if await_quota && !retried {
            ForgeStep::CheckQuota
        } else {
            ForgeStep::Done
        },
        _ => ForgeStep::Done,
    }
}

/// What a call's outcome leaves in the cache: a found value or a definite
/// absence is stored; a failure stores nothing.
pub open spec fn cached_after_fetch<K, V>(cache: Map<K, Option<V>>, key: K, outcome: FetchOutcome<V>) -> Map<K, Option<V>> {
    match outcome {
        FetchOutcome::Found(v) => cache.insert(key, Some(v)),
        FetchOutcome::NotFound => cache.insert(key, None),
        FetchOutcome::Failed => cache,
    }
}

/// Milliseconds from `now_ms` until `reset_ms`, or zero if it has passed.
pub open spec fn wait_millis(reset_ms: i64, now_ms: i64) -> int {
    if reset_ms > now_ms {
        reset_ms - now_ms
    } else {
        0
    }
}

/// The step after a quota check: wait for the reset and retry where the
/// quota is exhausted, otherwise give up.
pub open spec fn step_after_quota(status: QuotaStatus, now_ms: i64) -> ForgeStep {
    match status {
        QuotaStatus::Exhausted { reset_ms } => ForgeStep::WaitAndRetry {
            millis: wait_millis(reset_ms, now_ms) as u64,
        },
        _ => ForgeStep::Done,
    }
}

/// The GitHub client of one session.
pub struct GitHubClient {
    repo_cache: Cache<GitHubRepositoryId, Option<ForgeRepository>>,
    user_cache: Cache<String, Option<ForgeUser>>,
    await_quota: bool,
}

impl GitHubClient {
    pub closed spec fn repos(&self) -> Map<(Seq<char>, Seq<char>), Option<ForgeRepository>> {
        self.repo_cache@
    }

    pub closed spec fn users(&self) -> Map<Seq<char>, Option<ForgeUser>> {
        self.user_cache@
    }

    pub closed spec fn awaits_quota(&self) -> bool {
        self.await_quota
    }

    /// A client with empty caches; with `await_quota` it waits for a new
    /// quota once a call fails on an exhausted one.
    pub fn new(await_quota: bool) -> (r: GitHubClient)
        ensures
            r.repos().is_empty(),
            r.users().is_empty(),
            r.awaits_quota() == await_quota,
    {
        GitHubClient { repo_cache: Cache::new(), user_cache: Cache::new(), await_quota }
    }

    pub fn awaiting_quota(&self) -> (r: bool)
        ensures
            r == self.awaits_quota(),
    {
        self.await_quota
    }

    /// The step that starts a repository lookup: the cache answers if it
    /// holds anything for `id`, a recorded absence included.
    pub fn begin_repository(&self, id: &GitHubRepositoryId) -> (r: ForgeStep)
        ensures
            r == (if self.repos().contains_key(id@) {
                ForgeStep::Done
            } else {
                ForgeStep::Fetch
            }),
    {
        if self.repo_cache.contains(id) {
            ForgeStep::Done
        } else {
            ForgeStep::Fetch
        }
    }

    /// Records what a repository call returned and says what comes next.
    pub fn repository_fetched(
        &mut self,
        id: &GitHubRepositoryId,
        outcome: FetchOutcome<ForgeRepository>,
        retried: bool,
    ) -> (r: ForgeStep)
        requires
            !old(self).repos().contains_key(id@),
        ensures
            r == step_after_fetch(outcome, old(self).awaits_quota(), retried),
            final(self).repos() == cached_after_fetch(old(self).repos(), id@, outcome),
            final(self).users() == old(self).users(),
            final(self).awaits_quota() == old(self).awaits_quota(),
    {
        match outcome {
            FetchOutcome::Found(v) => {
                self.repo_cache.insert(id.copy_key(), Some(v));
                ForgeStep::Done
            },
            FetchOutcome::NotFound => {
                self.repo_cache.insert(id.copy_key(), None);
                ForgeStep::Done
            },
            FetchOutcome::Failed => {
                if self.await_quota && !retried {
                    ForgeStep::CheckQuota
                } else {
                    ForgeStep::Done
                }
            },
        }
    }

    /// The cached repository, if one was found.
    pub fn get_repository(&self, id: &GitHubRepositoryId) -> (r: Option<&ForgeRepository>)
        ensures
            match (if self.repos().contains_key(id@) { self.repos()[id@] } else { None }) {
                Some(v) => r is Some && *r.unwrap() == v,
                None => r is None,
            },
    {
        match self.repo_cache.get(id) {
            Some(Some(v)) => Some(v),
            _ => None,
        }
    }

    /// The step that starts a user lookup.
    pub fn begin_user(&self, username: &str) -> (r: ForgeStep)
        ensures
            r == (if self.users().contains_key(username@) {
                ForgeStep::Done
            } else {
                ForgeStep::Fetch
            }),
    {
        if self.user_cache.contains(&username.to_owned()) {
            ForgeStep::Done
        } else {
            ForgeStep::Fetch
        }
    }

    /// Records what a user call returned and says what comes next.
    pub fn user_fetched(&mut self, username: &str, outcome: FetchOutcome<ForgeUser>, retried: bool) -> (r: ForgeStep)
        requires
            !old(self).users().contains_key(username@),
        ensures
            r == step_after_fetch(outcome, old(self).awaits_quota(), retried),
            final(self).users() == cached_after_fetch(old(self).users(), username@, outcome),
            final(self).repos() == old(self).repos(),
            final(self).awaits_quota() == old(self).awaits_quota(),
    {
        match outcome {
            FetchOutcome::Found(v) => {
                self.user_cache.insert(username.to_owned(), Some(v));
                ForgeStep::Done
            },
            FetchOutcome::NotFound => {
                self.user_cache.insert(username.to_owned(), None);
                ForgeStep::Done
            },
            FetchOutcome::Failed => {
                if self.await_quota && !retried {
                    ForgeStep::CheckQuota
                } else {
                    ForgeStep::Done
                }
            },
        }
    }

    /// The cached user, if one was found.
    pub fn get_public_user(&self, username: &str) -> (r: Option<&ForgeUser>)
        ensures
            match (if self.users().contains_key(username@) { self.users()[username@] } else { None }) {
                Some(v) => r is Some && *r.unwrap() == v,
                None => r is None,
            },
    {
        match self.user_cache.get(&username.to_owned()) {
            Some(Some(v)) => Some(v),
            _ => None,
        }
    }
}

/// The step after a quota check made at `now_ms`.
pub fn quota_checked(status: QuotaStatus, now_ms: i64) -> (r: ForgeStep)
    ensures
        r == step_after_quota(status, now_ms),
{
    match status {
        QuotaStatus::Exhausted { reset_ms } => {
            let millis: u64 = if reset_ms > now_ms {
                (reset_ms as i128 - now_ms as i128) as u64
            } else {
                0
            };
            ForgeStep::WaitAndRetry { millis }
        },
        _ => ForgeStep::Done,
    }
}

/// A lookup calls the forge at most twice: after the retry that follows a
/// quota wait, a failure ends the lookup.
pub proof fn retry_at_most_once<T>(outcome: FetchOutcome<T>, await_quota: bool)
    ensures
        step_after_fetch(outcome, await_quota, true) == ForgeStep::Done,
{
}

/// Once a lookup has stored a definite answer, the next lookup of the same
/// key makes no call and answers the same.
pub proof fn definite_answers_are_kept<K, V>(cache: Map<K, Option<V>>, key: K, outcome: FetchOutcome<V>)
    requires
        !(outcome is Failed),
    ensures
        cached_after_fetch(cache, key, outcome).contains_key(key),
        cached_after_fetch(cache, key, outcome)[key] == match outcome {
            FetchOutcome::Found(v) => Some(v),
            _ => None,
        },
{
}

} // verus!
