//! Registry statistics of crates.io, cached per package name.
//!
//! The whole record of a crate (every version with its downloads and yank
//! status) is fetched in one call and stored, a failed fetch as `None`, so
//! that a name is asked for at most once per session.
use vstd::prelude::*;

use crate::cache::Cache;
use crate::version::{semver_of, parse_version, NameVersion, Version, VersionView};

verus! {

/// One published version of a crate.
pub struct RegistryVersion {
    pub num: String,
    pub downloads: u64,
    pub yanked: bool,
}

/// What the registry reports for a crate.
pub struct RegistryRecord {
    pub downloads: u64,
    pub recent_downloads: Option<u64>,
    pub versions: Vec<RegistryVersion>,
}

/// The first version whose number parses to `v`; numbers that do not parse
/// are passed over.
pub open spec fn first_matching(vs: Seq<RegistryVersion>, v: VersionView) -> Option<
    RegistryVersion,
>
    decreases vs.len(),
{
    if vs.len() == 0 {
        None
    } else if semver_of(vs[0].num@) == Some(v) {
        Some(vs[0])
    } else {
        first_matching(vs.drop_first(), v)
    }
}

/// The numbers of the yanked versions, in registry order.
pub open spec fn yanked_nums(vs: Seq<RegistryVersion>) -> Seq<Seq<char>>
    decreases vs.len(),
{
    if vs.len() == 0 {
        Seq::empty()
    } else if vs.last().yanked {
        yanked_nums(vs.drop_last()).push(vs.last().num@)
    } else {
        yanked_nums(vs.drop_last())
    }
}

pub open spec fn downloads_of(m: Option<RegistryVersion>) -> Option<u64> {
    match m {
        Some(v) => Some(v.downloads),
        None => None,
    }
}

pub open spec fn yanked_of(m: Option<RegistryVersion>) -> Option<bool> {
    match m {
        Some(v) => Some(v.yanked),
        None => None,
    }
}

/// The ratio of yanked versions to all versions, as its two counts.
#[derive(Clone, Copy, Debug, PartialEq, Eq, Structural)]
pub struct YankedRatio {
    pub yanked: usize,
    pub total: usize,
}

impl RegistryRecord {
    pub fn versions_count(&self) -> (r: usize)
        ensures
            r == self.versions@.len(),
    {
        self.versions.len()
    }

    /// The version entry whose number is `version`, if any.
    fn find_version(&self, version: &Version) -> (r: Option<&RegistryVersion>)
        ensures
            match first_matching(self.versions@, version@) {
                Some(m) => r is Some && *r.unwrap() == m,
                None => r is None,
            },
    {
        let mut i: usize = 0;
        assert(self.versions@.subrange(0, self.versions@.len() as int) =~= self.versions@);
        while i < self.versions.len()
            invariant
                i <= self.versions@.len(),
                first_matching(self.versions@, version@) == first_matching(
                    self.versions@.subrange(i as int, self.versions@.len() as int),
                    version@,
                ),
            decreases self.versions@.len() - i,
        {
            let ghost rest = self.versions@.subrange(i as int, self.versions@.len() as int);
            assert(rest.drop_first() =~= self.versions@.subrange(
                i + 1,
                self.versions@.len() as int,
            ));
            let v = &self.versions[i];
            match parse_version(v.num.as_str()) {
                Some(parsed) => {
                    if parsed.same_as(version) {
                        return Some(v);
                    }
                },
                None => {},
            }
            i = i + 1;
        }
        None
    }

    /// Downloads of one version.
    pub fn version_downloads(&self, version: &Version) -> (r: Option<u64>)
        ensures
            r == downloads_of(first_matching(self.versions@, version@)),
    {
        match self.find_version(version) {
            Some(v) => Some(v.downloads),
            None => None,
        }
    }

    /// Whether one version is yanked.
    pub fn yanked(&self, version: &Version) -> (r: Option<bool>)
        ensures
            r == yanked_of(first_matching(self.versions@, version@)),
    {
        match self.find_version(version) {
            Some(v) => Some(v.yanked),
            None => None,
        }
    }

    /// The numbers of all yanked versions, as the registry wrote them.
    pub fn yanked_versions(&self) -> (r: Vec<String>)
        ensures
            r@.map_values(|s: String| s@) == yanked_nums(self.versions@),
    {
        let mut out: Vec<String> = Vec::new();
        let mut i: usize = 0;
        while i < self.versions.len()
            invariant
                i <= self.versions@.len(),
                out@.map_values(|s: String| s@) == yanked_nums(
                    self.versions@.subrange(0, i as int),
                ),
            decreases self.versions@.len() - i,
        {
            let ghost before = out@;
            assert(self.versions@.subrange(0, i + 1).drop_last() =~= self.versions@.subrange(
                0,
                i as int,
            ));
            if self.versions[i].yanked {
                out.push(self.versions[i].num.clone());
                assert(out@.map_values(|s: String| s@) =~= before.map_values(|s: String| s@).push(
                    self.versions@[i as int].num@,
                ));
            }
            i = i + 1;
        }
        assert(self.versions@.subrange(0, i as int) =~= self.versions@);
        out
    }

    /// How many versions are yanked.
    pub fn yanked_versions_count(&self) -> (r: usize)
        ensures
            r == yanked_nums(self.versions@).len(),
    {
        let mut count: usize = 0;
        let mut i: usize = 0;
        while i < self.versions.len()
            invariant
                i <= self.versions@.len(),
                count == yanked_nums(self.versions@.subrange(0, i as int)).len(),
                count <= i,
            decreases self.versions@.len() - i,
        {
            assert(self.versions@.subrange(0, i + 1).drop_last() =~= self.versions@.subrange(
                0,
                i as int,
            ));
            if self.versions[i].yanked {
                count = count + 1;
            }
            i = i + 1;
        }
        assert(self.versions@.subrange(0, i as int) =~= self.versions@);
        count
    }

    /// Yanked versions against all versions; `None` when there are no
    /// versions, where the ratio is undefined.
    pub fn yanked_ratio(&self) -> (r: Option<YankedRatio>)
        ensures
            self.versions@.len() == 0 ==> r is None,
            self.versions@.len() > 0 ==> r == Some(
                YankedRatio {
                    yanked: yanked_nums(self.versions@).len() as usize,
                    total: self.versions@.len() as usize,
                },
            ),
    {
        let total = self.versions.len();
        if total == 0 {
            None
        } else {
            Some(YankedRatio { yanked: self.yanked_versions_count(), total })
        }
    }
}

/// Registry records cached per crate name for one session.
pub struct CratesIoClient {
    cache: Cache<String, Option<RegistryRecord>>,
}

impl CratesIoClient {
    /// What is cached per name: the record, or `None` where the fetch failed.
    pub closed spec fn cache(&self) -> Map<Seq<char>, Option<RegistryRecord>> {
        self.cache@
    }

    /// The cached record of `name`, if it was fetched successfully.
    pub open spec fn record(&self, name: Seq<char>) -> Option<RegistryRecord> {
        if self.cache().contains_key(name) {
            self.cache()[name]
        } else {
            None
        }
    }

    pub fn new() -> (r: CratesIoClient)
        ensures
            r.cache() == Map::<Seq<char>, Option<RegistryRecord>>::empty(),
    {
        CratesIoClient { cache: Cache::new() }
    }

    /// Whether `name` still has to be fetched: nothing, not even a failure,
    /// is recorded for it.
    pub fn needs_fetch(&self, name: &str) -> (r: bool)
        ensures
            r == !self.cache().contains_key(name@),
    {
        !self.cache.contains(&name.to_owned())
    }

    /// Records what fetching `name` returned; `None` records a failure, which
    /// is then not retried.
    pub fn store(&mut self, name: &str, fetched: Option<RegistryRecord>)
        requires
            !old(self).cache().contains_key(name@),
        ensures
            final(self).cache() == old(self).cache().insert(name@, fetched),
    {
        self.cache.insert(name.to_owned(), fetched);
    }

    /// The cached record of a crate.
    pub fn crate_response(&self, name: &str) -> (r: Option<&RegistryRecord>)
        ensures
            match self.record(name@) {
                Some(rec) => r is Some && *r.unwrap() == rec,
                None => r is None,
            },
    {
        let key = name.to_owned();
        match self.cache.get(&key) {
            Some(entry) => match entry {
                Some(rec) => Some(rec),
                None => None,
            },
            None => None,
        }
    }

    pub fn versions_count(&self, name: &str) -> (r: Option<usize>)
        ensures
            r == match self.record(name@) {
                Some(rec) => Some(rec.versions@.len() as usize),
                None => None,
            },
    {
        match self.crate_response(name) {
            Some(rec) => Some(rec.versions_count()),
            None => None,
        }
    }

    /// Downloads of all versions together.
    pub fn total_downloads(&self, name: &str) -> (r: Option<u64>)
        ensures
            r == match self.record(name@) {
                Some(rec) => Some(rec.downloads),
                None => None,
            },
    {
        match self.crate_response(name) {
            Some(rec) => Some(rec.downloads),
            None => None,
        }
    }

    /// Recent downloads, where the registry reports them.
    pub fn recent_downloads(&self, name: &str) -> (r: Option<u64>)
        ensures
            r == match self.record(name@) {
                Some(rec) => rec.recent_downloads,
                None => None,
            },
    {
        match self.crate_response(name) {
            Some(rec) => rec.recent_downloads,
            None => None,
        }
    }

    /// Downloads of the given version of a crate.
    pub fn version_downloads(&self, name_version: &NameVersion) -> (r: Option<u64>)
        ensures
            r == match self.record(name_version.name@) {
                Some(rec) => downloads_of(first_matching(rec.versions@, name_version.version@)),
                None => None,
            },
    {
        match self.crate_response(name_version.name.as_str()) {
            Some(rec) => rec.version_downloads(&name_version.version),
            None => None,
        }
    }

    /// Whether the given version of a crate is yanked.
    pub fn yanked(&self, name_version: &NameVersion) -> (r: Option<bool>)
        ensures
            r == match self.record(name_version.name@) {
                Some(rec) => yanked_of(first_matching(rec.versions@, name_version.version@)),
                None => None,
            },
    {
        match self.crate_response(name_version.name.as_str()) {
            Some(rec) => rec.yanked(&name_version.version),
            None => None,
        }
    }

    /// The numbers of the yanked versions of a crate.
    pub fn yanked_versions(&self, name: &str) -> (r: Option<Vec<String>>)
        ensures
            match self.record(name@) {
                Some(rec) => r is Some && r.unwrap()@.map_values(|s: String| s@) == yanked_nums(
                    rec.versions@,
                ),
                None => r is None,
            },
    {
        match self.crate_response(name) {
            Some(rec) => Some(rec.yanked_versions()),
            None => None,
        }
    }

    pub fn yanked_versions_count(&self, name: &str) -> (r: Option<usize>)
        ensures
            r == match self.record(name@) {
                Some(rec) => Some(yanked_nums(rec.versions@).len() as usize),
                None => None,
            },
    {
        match self.crate_response(name) {
            Some(rec) => Some(rec.yanked_versions_count()),
            None => None,
        }
    }

    /// Yanked versions against all versions of a crate; `None` where the
    /// record is missing or has no versions.
    pub fn yanked_ratio(&self, name: &str) -> (r: Option<YankedRatio>)
        ensures
            r == match self.record(name@) {
                Some(rec) => if rec.versions@.len() == 0 {
                    None
                } else {
                    Some(
                        YankedRatio {
                            yanked: yanked_nums(rec.versions@).len() as usize,
                            total: rec.versions@.len() as usize,
                        },
                    )
                },
                None => None,
            },
    {
        match self.crate_response(name) {
            Some(rec) => rec.yanked_ratio(),
            None => None,
        }
    }
}

} // verus!
