//! Classification of a package's repository URL: a GitHub repository that
//! can be looked up, a GitLab URL, or a plain webpage.
use vstd::prelude::*;

use crate::cache::CacheKey;

verus! {

/// A GitHub repository, as in `github.com/<owner>/<repo>`.
#[derive(Debug, Clone, PartialEq, Eq, Hash)]
pub struct GitHubRepositoryId {
    owner: String,
    repo: String,
}

impl View for GitHubRepositoryId {
    type V = (Seq<char>, Seq<char>);

    closed spec fn view(&self) -> (Seq<char>, Seq<char>) {
        (self.owner@, self.repo@)
    }
}

impl GitHubRepositoryId {
    pub fn new(owner: String, repo: String) -> (r: GitHubRepositoryId)
        ensures
            r@ == (owner@, repo@),
    {
        GitHubRepositoryId { owner, repo }
    }

    pub fn owner(&self) -> (r: &str)
        ensures
            r@ == self@.0,
    {
        self.owner.as_str()
    }

    pub fn repo(&self) -> (r: &str)
        ensures
            r@ == self@.1,
    {
        self.repo.as_str()
    }

    /// Whether owner and repository agree.
    pub fn same_as(&self, other: &GitHubRepositoryId) -> (r: bool)
        ensures
            r == (self@ == other@),
    {
        self.owner == other.owner && self.repo == other.repo
    }
}

impl CacheKey for GitHubRepositoryId {
    fn same_key(&self, other: &GitHubRepositoryId) -> (r: bool) {
        self.same_as(other)
    }

    fn copy_key(&self) -> (r: GitHubRepositoryId) {
        GitHubRepositoryId::new(self.owner.clone(), self.repo.clone())
    }
}

/// What a repository URL was classified as.
#[derive(Debug, Clone, PartialEq, Eq)]
pub enum RepoId {
    GitHub(GitHubRepositoryId),
    GitLab(String),
    Unknown(String),
}

pub enum RepoIdView {
    GitHub(Seq<char>, Seq<char>),
    GitLab(Seq<char>),
    Unknown(Seq<char>),
}

impl View for RepoId {
    type V = RepoIdView;

    open spec fn view(&self) -> RepoIdView {
        match self {
            RepoId::GitHub(id) => RepoIdView::GitHub(id@.0, id@.1),
            RepoId::GitLab(u) => RepoIdView::GitLab(u@),
            RepoId::Unknown(u) => RepoIdView::Unknown(u@),
        }
    }
}

/// The parts of a parsed URL that classification reads: its host and its
/// path split at `/` (`None` where the URL cannot be a base).
pub struct UrlParts {
    pub host: Option<String>,
    pub path_segments: Option<Vec<String>>,
}

pub type UrlPartsView = (Option<Seq<char>>, Option<Seq<Seq<char>>>);

impl View for UrlParts {
    type V = UrlPartsView;

    open spec fn view(&self) -> UrlPartsView {
        (
            match self.host {
                Some(h) => Some(h@),
                None => None,
            },
            match self.path_segments {
                Some(s) => Some(s@.map_values(|x: String| x@)),
                None => None,
            },
        )
    }
}

/// Host and path segments of a URL as the `url` crate parses it; `None`
/// where the text does not parse.
pub uninterp spec fn url_parts_of(s: Seq<char>) -> Option<UrlPartsView>;

/// Relies on `url::Url::parse`, read through `Url::host_str` and
/// `Url::path_segments`: the result depends on the text alone.
#[verifier::external_body]
fn parse_url(s: &str) -> (r: Option<UrlParts>)
    ensures
        match r {
            Some(p) => url_parts_of(s@) == Some(p@),
            None => url_parts_of(s@).is_none(),
        },
{
    match url::Url::parse(s) {
        Ok(u) => Some(UrlParts {
            host: u.host_str().map(String::from),
            path_segments: u.path_segments().map(|p| p.map(String::from).collect()),
        }),
        Err(_) => None,
    }
}

pub open spec fn ends_with(s: Seq<char>, suffix: Seq<char>) -> bool {
    s.len() >= suffix.len() && s.subrange(s.len() - suffix.len(), s.len() as int) == suffix
}

/// Relies on `str::strip_suffix`: the text before `suffix` where `s` ends
/// with it.
#[verifier::external_body]
fn strip_suffix<'a>(s: &'a str, suffix: &str) -> (r: Option<&'a str>)
    ensures
        r.is_some() == ends_with(s@, suffix@),
        r matches Some(p) ==> p@ == s@.subrange(0, s@.len() - suffix@.len()),
{
    s.strip_suffix(suffix)
}

/// The path segments that are not empty, in order.
pub open spec fn non_empty_segments(segs: Seq<Seq<char>>) -> Seq<Seq<char>>
    decreases segs.len(),
{
    if segs.len() == 0 {
        Seq::empty()
    } else if segs.last().len() > 0 {
        non_empty_segments(segs.drop_last()).push(segs.last())
    } else {
        non_empty_segments(segs.drop_last())
    }
}

/// A repository name without a trailing `.git`.
pub open spec fn strip_git(s: Seq<char>) -> Seq<char> {
    if ends_with(s, ".git"@) {
        s.subrange(0, s.len() - 4)
    } else {
        s
    }
}

/// The classification of `url`, given what parsing it gave.
pub open spec fn classify_spec(url: Seq<char>, parts: Option<UrlPartsView>) -> RepoIdView {
    match parts {
        None => RepoIdView::Unknown(url),
        Some(p) => if p.0 == Some("github.com"@) {
            match p.1 {
                None => RepoIdView::Unknown(url),
                Some(segs) => {
                    let ne = non_empty_segments(segs);
                    if ne.len() < 2 {
                        RepoIdView::Unknown(url)
                    } else {
                        RepoIdView::GitHub(ne[0], strip_git(ne[1]))
                    }
                },
            }
        } else if p.0 == Some("gitlab.com"@) {
            RepoIdView::GitLab(url)
        } else {
            RepoIdView::Unknown(url)
        },
    }
}

fn non_empty(segs: &Vec<String>) -> (r: Vec<String>)
    ensures
        r@.map_values(|x: String| x@) == non_empty_segments(segs@.map_values(|x: String| x@)),
{
    let ghost all = segs@.map_values(|x: String| x@);
    let mut out: Vec<String> = Vec::new();
    let mut i: usize = 0;
    while i < segs.len()
        invariant
            i <= segs@.len(),
            all == segs@.map_values(|x: String| x@),
            out@.map_values(|x: String| x@) == non_empty_segments(all.subrange(0, i as int)),
        decreases segs@.len() - i,
    {
        let ghost before = out@;
        assert(all.subrange(0, i + 1).drop_last() =~= all.subrange(0, i as int));
        if !segs[i].as_str().is_empty() {
            out.push(segs[i].clone());
            assert(out@.map_values(|x: String| x@) =~= before.map_values(|x: String| x@).push(
                all[i as int],
            ));
        }
        i = i + 1;
    }
    assert(all.subrange(0, i as int) =~= all);
    out
}

/// Classifies `url` from its parsed parts: GitHub with the first two
/// non-empty path segments as owner and repository (a trailing `.git`
/// dropped from the latter), GitLab by host, anything else a webpage with the
/// URL kept as it was.
pub fn classify_parts(url: &str, parts: Option<UrlParts>) -> (r: RepoId)
    ensures
        r@ == classify_spec(
            url@,
            match parts {
                Some(p) => Some(p@),
                None => None,
            },
        ),
{
    proof {
        reveal_strlit("github.com");
        reveal_strlit("gitlab.com");
        reveal_strlit(".git");
    }
    let github = "github.com".to_owned();
    let gitlab = "gitlab.com".to_owned();
    match parts {
        None => RepoId::Unknown(url.to_owned()),
        Some(p) => {
            let is_github = match &p.host {
                Some(h) => *h == github,
                None => false,
            };
            let is_gitlab = match &p.host {
                Some(h) => *h == gitlab,
                None => false,
            };
            if is_github {
                match &p.path_segments {
                    None => RepoId::Unknown(url.to_owned()),
                    Some(segs) => {
                        let ne = non_empty(segs);
                        if ne.len() < 2 {
                            RepoId::Unknown(url.to_owned())
                        } else {
                            let owner = ne[0].clone();
                            let repo = match strip_suffix(ne[1].as_str(), ".git") {
                                Some(stripped) => stripped.to_owned(),
                                None => ne[1].clone(),
                            };
                            RepoId::GitHub(GitHubRepositoryId::new(owner, repo))
                        }
                    },
                }
            } else if is_gitlab {
                RepoId::GitLab(url.to_owned())
            } else {
                RepoId::Unknown(url.to_owned())
            }
        },
    }
}

impl RepoId {
    /// Classifies a repository URL found on a package record.
    pub fn from_url(url: &str) -> (r: RepoId)
        ensures
            r@ == classify_spec(url@, url_parts_of(url@)),
    {
        let parts = parse_url(url);
        classify_parts(url, parts)
    }
}

} // verus!
