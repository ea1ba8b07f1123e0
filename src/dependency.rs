//! The dependency index: the package table and, for every package, its
//! direct dependencies of the normal kind, built once from the resolved
//! graph of the build tool and read-only afterwards.
//!
//! Package identifiers are integers handed out by the caller, one per
//! package, in the order in which the build tool's identifiers sort.
use vstd::prelude::*;

use crate::version::Version;

verus! {

/// The kind of a dependency edge.
#[derive(Clone, Copy, Debug, PartialEq, Eq, Structural)]
pub enum DependencyKind {
    Normal,
    Development,
    Build,
    Unknown,
}

/// One edge of a resolved node: the package depended on and every kind under
/// which it is declared.
pub struct NodeDep {
    pub pkg: u64,
    pub dep_kinds: Vec<DependencyKind>,
}

/// A resolved node: a package and its outgoing edges.
pub struct Node {
    pub id: u64,
    pub deps: Vec<NodeDep>,
}

/// A package record.
pub struct Package {
    pub id: u64,
    /// The build tool's own identifier, as text.
    pub id_text: String,
    pub name: String,
    pub version: Version,
    /// The version as the build tool writes it.
    pub version_text: String,
    pub license: Option<String>,
    pub repository: Option<String>,
    pub manifest_path: String,
    pub keywords: Vec<String>,
    pub categories: Vec<String>,
}

/// The resolved graph of the build tool.
pub struct Metadata {
    pub packages: Vec<Package>,
    pub nodes: Vec<Node>,
    pub root: Option<u64>,
}

/// Why a graph could not be indexed.
#[derive(Clone, Copy, Debug, PartialEq, Eq, Structural)]
pub enum IndexError {
    /// The graph names no root package.
    NoRoot,
    /// The root package has no resolved node.
    RootNotResolved(u64),
    /// Two packages, or two nodes, share an identifier.
    DuplicateId(u64),
    /// An edge leads to an identifier that has no package record.
    UnknownPackage(u64),
}

pub open spec fn is_normal(d: NodeDep) -> bool {
    d.dep_kinds@.contains(DependencyKind::Normal)
}

/// The targets of the edges that are declared, among other kinds perhaps,
/// as normal, in edge order.
pub open spec fn normal_deps(deps: Seq<NodeDep>) -> Seq<u64>
    decreases deps.len(),
{
    if deps.len() == 0 {
        Seq::empty()
    } else if is_normal(deps.last()) {
        normal_deps(deps.drop_last()).push(deps.last().pkg)
    } else {
        normal_deps(deps.drop_last())
    }
}

/// Every identifier occurs once.
pub open spec fn unique(ids: Seq<u64>) -> bool {
    forall|i: int, j: int| 0 <= i < ids.len() && 0 <= j < ids.len() && i != j ==> ids[i] != ids[j]
}

pub open spec fn strictly_sorted(s: Seq<u64>) -> bool {
    forall|i: int, j: int| 0 <= i < j < s.len() ==> s[i] < s[j]
}

/// The package ids that appear in some direct-dependency list of a package
/// other than `root`.
pub open spec fn transitive_set(entries: Seq<(u64, Seq<u64>)>, root: u64) -> Set<u64> {
    Set::new(
        |id: u64|
            exists|i: int| 0 <= i < entries.len() && entries[i].0 != root && entries[i].1.contains(id),
    )
}

/// The direct dependencies recorded for `id`.
pub open spec fn deps_of(entries: Seq<(u64, Seq<u64>)>, id: u64) -> Option<Seq<u64>>
    decreases entries.len(),
{
    if entries.len() == 0 {
        None
    } else if entries.last().0 == id {
        Some(entries.last().1)
    } else {
        deps_of(entries.drop_last(), id)
    }
}

/// The direct dependencies of each node, in node order.
pub open spec fn direct_entries(nodes: Seq<Node>) -> Seq<(u64, Seq<u64>)> {
    nodes.map_values(|n: Node| (n.id, normal_deps(n.deps@)))
}

fn has_normal_kind(kinds: &Vec<DependencyKind>) -> (r: bool)
    ensures
        r == kinds@.contains(DependencyKind::Normal),
{
    let mut i: usize = 0;
    while i < kinds.len()
        invariant
            i <= kinds@.len(),
            forall|j: int| 0 <= j < i ==> kinds@[j] != DependencyKind::Normal,
        decreases kinds@.len() - i,
    {
        if kinds[i] == DependencyKind::Normal {
            return true;
        }
        i = i + 1;
    }
    false
}

/// The targets of the normal edges of one node.
fn normal_dependencies(deps: &Vec<NodeDep>) -> (r: Vec<u64>)
    ensures
        r@ == normal_deps(deps@),
{
    let mut out: Vec<u64> = Vec::new();
    let mut i: usize = 0;
    while i < deps.len()
        invariant
            i <= deps@.len(),
            out@ == normal_deps(deps@.subrange(0, i as int)),
        decreases deps@.len() - i,
    {
        assert(deps@.subrange(0, i + 1).drop_last() =~= deps@.subrange(0, i as int));
        if has_normal_kind(&deps[i].dep_kinds) {
            out.push(deps[i].pkg);
        }
        i = i + 1;
    }
    assert(deps@.subrange(0, i as int) =~= deps@);
    out
}

/// Direct normal dependencies of every package, in node order.
pub struct DirectDependencyMap {
    entries: Vec<(u64, Vec<u64>)>,
}

impl View for DirectDependencyMap {
    type V = Seq<(u64, Seq<u64>)>;

    closed spec fn view(&self) -> Seq<(u64, Seq<u64>)> {
        self.entries@.map_values(|e: (u64, Vec<u64>)| (e.0, e.1@))
    }
}

impl DirectDependencyMap {
    /// The direct dependencies recorded for a package.
    pub fn get(&self, id: u64) -> (r: Option<&Vec<u64>>)
        ensures
            match deps_of(self@, id) {
                Some(d) => r is Some && r.unwrap()@ == d,
                None => r is None,
            },
    {
        let mut i: usize = self.entries.len();
        assert(self@.subrange(0, i as int) =~= self@);
        while i > 0
            invariant
                i <= self.entries@.len(),
                deps_of(self@, id) == deps_of(self@.subrange(0, i as int), id),
            decreases i,
        {
            assert(self@.subrange(0, i as int).drop_last() =~= self@.subrange(0, i - 1));
            let e = &self.entries[i - 1];
            if e.0 == id {
                return Some(&e.1);
            }
            i = i - 1;
        }
        None
    }

    pub fn len(&self) -> (r: usize)
        ensures
            r == self@.len(),
    {
        self.entries.len()
    }

    /// The package of the `i`-th entry and its direct dependencies.
    pub fn entry(&self, i: usize) -> (r: (u64, &Vec<u64>))
        requires
            i < self@.len(),
        ensures
            r.0 == self@[i as int].0,
            r.1@ == self@[i as int].1,
    {
        (self.entries[i].0, &self.entries[i].1)
    }
}

/// Indexes, for every resolved node, its direct dependencies of the normal
/// kind; build and development edges are left out.
pub fn get_direct_dependencies(metadata: &Metadata) -> (r: DirectDependencyMap)
    ensures
        r@ == direct_entries(metadata.nodes@),
{
    let nodes = &metadata.nodes;
    let mut entries: Vec<(u64, Vec<u64>)> = Vec::new();
    let mut i: usize = 0;
    while i < nodes.len()
        invariant
            i <= nodes@.len(),
            entries@.map_values(|e: (u64, Vec<u64>)| (e.0, e.1@)) =~= direct_entries(
                nodes@.subrange(0, i as int),
            ),
        decreases nodes@.len() - i,
    {
        let ghost before = entries@;
        let deps = normal_dependencies(&nodes[i].deps);
        entries.push((nodes[i].id, deps));
        assert(entries@.map_values(|e: (u64, Vec<u64>)| (e.0, e.1@)) =~= direct_entries(
            nodes@.subrange(0, i + 1),
        )) by {
            assert(entries@ == before.push((nodes@[i as int].id, deps)));
            assert(entries@.map_values(|e: (u64, Vec<u64>)| (e.0, e.1@)) =~= before.map_values(
                |e: (u64, Vec<u64>)| (e.0, e.1@),
            ).push((nodes@[i as int].id, deps@)));
            assert(direct_entries(nodes@.subrange(0, i + 1)) =~= direct_entries(
                nodes@.subrange(0, i as int),
            ).push((nodes@[i as int].id, normal_deps(nodes@[i as int].deps@))));
        }
        i = i + 1;
    }
    assert(nodes@.subrange(0, i as int) =~= nodes@);
    DirectDependencyMap { entries }
}

/// The package with identifier `id`, if the table holds one.
pub open spec fn package_of(packages: Seq<Package>, id: u64) -> Option<Package>
    decreases packages.len(),
{
    if packages.len() == 0 {
        None
    } else if packages[0].id == id {
        Some(packages[0])
    } else {
        package_of(packages.drop_first(), id)
    }
}

/// The package table, in the order in which the build tool lists packages.
pub struct PackageMap {
    packages: Vec<Package>,
}

impl View for PackageMap {
    type V = Seq<Package>;

    closed spec fn view(&self) -> Seq<Package> {
        self.packages@
    }
}

impl PackageMap {
    /// The package with the given identifier.
    pub fn get(&self, id: u64) -> (r: Option<&Package>)
        ensures
            match package_of(self@, id) {
                Some(p) => r is Some && *r.unwrap() == p,
                None => r is None,
            },
    {
        let mut i: usize = 0;
        assert(self@.subrange(0, self@.len() as int) =~= self@);
        while i < self.packages.len()
            invariant
                i <= self@.len(),
                package_of(self@, id) == package_of(self@.subrange(i as int, self@.len() as int), id),
            decreases self@.len() - i,
        {
            assert(self@.subrange(i as int, self@.len() as int).drop_first() =~= self@.subrange(
                i + 1,
                self@.len() as int,
            ));
            if self.packages[i].id == id {
                return Some(&self.packages[i]);
            }
            i = i + 1;
        }
        None
    }

    pub fn contains(&self, id: u64) -> (r: bool)
        ensures
            r == package_of(self@, id).is_some(),
    {
        self.get(id).is_some()
    }
}

/// Takes the package table out of the graph.
pub fn get_packages(metadata: Metadata) -> (r: PackageMap)
    ensures
        r@ == metadata.packages@,
{
    PackageMap { packages: metadata.packages }
}

/// Inserts `x` into a strictly increasing vector, keeping it so.
fn insert_sorted(v: &mut Vec<u64>, x: u64)
    requires
        strictly_sorted(old(v)@),
    ensures
        strictly_sorted(final(v)@),
        final(v)@.to_set() == old(v)@.to_set().insert(x),
{
    let mut j: usize = 0;
    while j < v.len() && v[j] < x
        invariant
            j <= v@.len(),
            strictly_sorted(v@),
            forall|k: int| 0 <= k < j ==> v@[k] < x,
        decreases v@.len() - j,
    {
        j = j + 1;
    }
    if j < v.len() && v[j] == x {
        assert(v@.to_set().insert(x) =~= v@.to_set()) by {
            assert(v@.contains(x)) by {
                assert(v@[j as int] == x);
            }
        }
        return ;
    }
    let ghost before = v@;
    v.insert(j, x);
    assert(strictly_sorted(v@)) by {
        assert forall|a: int, b: int| 0 <= a < b < v@.len() implies v@[a] < v@[b] by {
            if b < j {
            } else if b == j {
            } else if a < j {
                assert(v@[b] == before[b - 1]);
                if j < before.len() {
                    assert(before[j as int] > x);
                    if b - 1 > j {
                        assert(before[j as int] < before[b - 1]);
                    }
                }
            } else if a == j {
                assert(before[j as int] >= x);
                if b - 1 > j {
                    assert(before[j as int] < before[b - 1]);
                }
            } else {
                assert(before[a - 1] < before[b - 1]);
            }
        }
    }
    assert(v@.to_set() =~= before.to_set().insert(x)) by {
        assert forall|e: u64| #[trigger] v@.contains(e) implies before.contains(e) || e == x by {
            let k = choose|k: int| 0 <= k < v@.len() && v@[k] == e;
            if k < j {
                assert(before[k] == e);
            } else if k > j {
                assert(before[k - 1] == e);
            }
        }
        assert forall|e: u64| before.contains(e) || e == x implies #[trigger] v@.contains(e) by {
            if e == x {
                assert(v@[j as int] == x);
            } else {
                let k = choose|k: int| 0 <= k < before.len() && before[k] == e;
                if k < j {
                    assert(v@[k] == e);
                } else {
                    assert(v@[k + 1] == e);
                }
            }
        }
    }
}

/// The identifiers of `ids`, sorted and each once.
fn sorted_unique(ids: &Vec<u64>) -> (r: Vec<u64>)
    ensures
        strictly_sorted(r@),
        r@.to_set() == ids@.to_set(),
{
    let mut out: Vec<u64> = Vec::new();
    let mut i: usize = 0;
    while i < ids.len()
        invariant
            i <= ids@.len(),
            strictly_sorted(out@),
            out@.to_set() == ids@.subrange(0, i as int).to_set(),
        decreases ids@.len() - i,
    {
        insert_sorted(&mut out, ids[i]);
        proof {
            assert(ids@.subrange(0, i + 1) =~= ids@.subrange(0, i as int).push(ids@[i as int]));
            ids@.subrange(0, i as int).lemma_push_to_set_commute(ids@[i as int]);
        }
        i = i + 1;
    }
    assert(ids@.subrange(0, i as int) =~= ids@);
    out
}

/// A strictly increasing sequence holds each element once, so its length
/// is the size of its set.
proof fn lemma_sorted_len(s: Seq<u64>)
    requires
        strictly_sorted(s),
    ensures
        s.to_set().len() == s.len(),
{
    assert(s.no_duplicates()) by {
        assert forall|i: int, j: int| 0 <= i < s.len() && 0 <= j < s.len() && i != j implies s[i]
            != s[j] by {
            if i < j {
            } else {
            }
        }
    }
    s.unique_seq_to_set();
}

/// The set of identifiers that the dependency entry point lists: the direct
/// dependencies of the root, and the root itself when asked for.
pub open spec fn dependency_set(direct: Seq<u64>, root: u64, include_root: bool) -> Set<u64> {
    if include_root {
        direct.to_set().insert(root)
    } else {
        direct.to_set()
    }
}

/// An identifier that occurs twice in `ids`, if any does.
fn find_duplicate(ids: &Vec<u64>) -> (r: Option<u64>)
    ensures
        r is None <==> unique(ids@),
        r matches Some(d) ==> exists|i: int, j: int|
            0 <= i < j < ids@.len() && ids@[i] == d && ids@[j] == d,
{
    let mut j: usize = 0;
    while j < ids.len()
        invariant
            j <= ids@.len(),
            forall|a: int, b: int| 0 <= a < b < j ==> ids@[a] != ids@[b],
        decreases ids@.len() - j,
    {
        let mut i: usize = 0;
        while i < j
            invariant
                i <= j < ids@.len(),
                forall|a: int| 0 <= a < i ==> ids@[a] != ids@[j as int],
            decreases j - i,
        {
            if ids[i] == ids[j] {
                return Some(ids[j]);
            }
            i = i + 1;
        }
        j = j + 1;
    }
    assert(unique(ids@)) by {
        assert forall|a: int, b: int|
            0 <= a < ids@.len() && 0 <= b < ids@.len() && a != b implies ids@[a] != ids@[b] by {
            if a < b {
            } else {
            }
        }
    }
    None
}

/// Every edge of `entries` leads to a package of `packages`.
pub open spec fn edges_known(entries: Seq<(u64, Seq<u64>)>, packages: Seq<Package>) -> bool {
    forall|i: int, j: int|
        0 <= i < entries.len() && 0 <= j < entries[i].1.len() ==> package_of(
            packages,
            entries[i].1[j],
        ).is_some()
}

/// An edge target that has no package record, if any.
fn find_unknown(map: &DirectDependencyMap, packages: &PackageMap) -> (r: Option<u64>)
    ensures
        r is None <==> edges_known(map@, packages@),
        r matches Some(u) ==> package_of(packages@, u) is None && exists|i: int, j: int|
            0 <= i < map@.len() && 0 <= j < map@[i].1.len() && map@[i].1[j] == u,
{
    let n = map.len();
    let mut i: usize = 0;
    while i < n
        invariant
            n == map@.len(),
            i <= n,
            forall|a: int, b: int|
                0 <= a < i && 0 <= b < map@[a].1.len() ==> package_of(
                    packages@,
                    map@[a].1[b],
                ).is_some(),
        decreases n - i,
    {
        let (_, deps) = map.entry(i);
        let mut j: usize = 0;
        while j < deps.len()
            invariant
                n == map@.len(),
                i < n,
                j <= deps@.len(),
                deps@ == map@[i as int].1,
                forall|b: int| 0 <= b < j ==> package_of(packages@, deps@[b]).is_some(),
            decreases deps@.len() - j,
        {
            if !packages.contains(deps[j]) {
                assert(map@[i as int].1[j as int] == deps@[j as int]);
                return Some(deps[j]);
            }
            j = j + 1;
        }
        i = i + 1;
    }
    None
}

fn package_ids(packages: &Vec<Package>) -> (r: Vec<u64>)
    ensures
        r@ == packages@.map_values(|p: Package| p.id),
{
    let mut out: Vec<u64> = Vec::new();
    let mut i: usize = 0;
    while i < packages.len()
        invariant
            i <= packages@.len(),
            out@ =~= packages@.subrange(0, i as int).map_values(|p: Package| p.id),
        decreases packages@.len() - i,
    {
        out.push(packages[i].id);
        i = i + 1;
    }
    assert(packages@.subrange(0, i as int) =~= packages@);
    out
}

fn node_ids(map: &DirectDependencyMap) -> (r: Vec<u64>)
    ensures
        r@ == map@.map_values(|e: (u64, Seq<u64>)| e.0),
{
    let mut out: Vec<u64> = Vec::new();
    let n = map.len();
    let mut i: usize = 0;
    while i < n
        invariant
            n == map@.len(),
            i <= n,
            out@ =~= map@.subrange(0, i as int).map_values(|e: (u64, Seq<u64>)| e.0),
        decreases n - i,
    {
        let (id, _) = map.entry(i);
        out.push(id);
        i = i + 1;
    }
    assert(map@.subrange(0, i as int) =~= map@);
    out
}

/// The dependency index of one session.
pub struct DependencyIndex {
    packages: PackageMap,
    direct_dependencies: DirectDependencyMap,
    root: u64,
}

impl DependencyIndex {
    pub closed spec fn packages_view(&self) -> Seq<Package> {
        self.packages@
    }

    pub closed spec fn entries(&self) -> Seq<(u64, Seq<u64>)> {
        self.direct_dependencies@
    }

    pub closed spec fn root_id(&self) -> u64 {
        self.root
    }

    /// Package and node identifiers are unique, the root has a node, and
    /// every edge leads to a recorded package.
    pub open spec fn wf(&self) -> bool {
        &&& unique(self.packages_view().map_values(|p: Package| p.id))
        &&& unique(self.entries().map_values(|e: (u64, Seq<u64>)| e.0))
        &&& deps_of(self.entries(), self.root_id()).is_some()
        &&& package_of(self.packages_view(), self.root_id()).is_some()
        &&& forall|i: int, j: int|
            0 <= i < self.entries().len() && 0 <= j < self.entries()[i].1.len() ==> package_of(
                self.packages_view(),
                self.entries()[i].1[j],
            ).is_some()
    }

    /// Builds the index from the resolved graph; fails where the graph has no
    /// root, repeats an identifier, leaves the root unresolved, or has an
    /// edge to an unknown package.
    pub fn build(metadata: Metadata) -> (r: Result<DependencyIndex, IndexError>)
        ensures
            metadata.root is None ==> r == Err::<DependencyIndex, IndexError>(IndexError::NoRoot),
            r is Ok <==> {
                &&& metadata.root is Some
                &&& unique(metadata.packages@.map_values(|p: Package| p.id))
                &&& unique(direct_entries(metadata.nodes@).map_values(|e: (u64, Seq<u64>)| e.0))
                &&& deps_of(direct_entries(metadata.nodes@), metadata.root.unwrap()).is_some()
                &&& package_of(metadata.packages@, metadata.root.unwrap()).is_some()
                &&& edges_known(direct_entries(metadata.nodes@), metadata.packages@)
            },
            r matches Ok(idx) ==> {
                &&& idx.wf()
                &&& idx.packages_view() == metadata.packages@
                &&& idx.entries() == direct_entries(metadata.nodes@)
                &&& idx.root_id() == metadata.root.unwrap()
            },
            r matches Err(IndexError::DuplicateId(d)) ==> {
                ||| exists|i: int, j: int|
                    0 <= i < j < metadata.packages@.len() && metadata.packages@[i].id == d
                        && metadata.packages@[j].id == d
                ||| exists|i: int, j: int|
                    0 <= i < j < metadata.nodes@.len() && metadata.nodes@[i].id == d
                        && metadata.nodes@[j].id == d
            },
            r matches Err(IndexError::RootNotResolved(id)) ==> metadata.root == Some(id),
            r matches Err(IndexError::UnknownPackage(u)) ==> package_of(metadata.packages@, u)
                is None,
    {
        let root = match metadata.root {
            Some(id) => id,
            None => {
                return Err(IndexError::NoRoot);
            },
        };
        let direct = get_direct_dependencies(&metadata);
        let ghost nodes = metadata.nodes@;
        let ghost pkgs = metadata.packages@;
        let pids = package_ids(&metadata.packages);
        if let Some(d) = find_duplicate(&pids) {
            assert(exists|i: int, j: int| 0 <= i < j < pkgs.len() && pkgs[i].id == d && pkgs[j].id == d) by {
                let (i, j) = choose|i: int, j: int| 0 <= i < j < pids@.len() && pids@[i] == d && pids@[j] == d;
                assert(pkgs[i].id == pids@[i] && pkgs[j].id == pids@[j]);
            }
            return Err(IndexError::DuplicateId(d));
        }
        let nids = node_ids(&direct);
        if let Some(d) = find_duplicate(&nids) {
            assert(exists|i: int, j: int| 0 <= i < j < nodes.len() && nodes[i].id == d && nodes[j].id == d) by {
                let (i, j) = choose|i: int, j: int| 0 <= i < j < nids@.len() && nids@[i] == d && nids@[j] == d;
                assert(nodes[i].id == direct_entries(nodes)[i].0);
                assert(nodes[j].id == direct_entries(nodes)[j].0);
            }
            return Err(IndexError::DuplicateId(d));
        }
        let packages = get_packages(metadata);
        if direct.get(root).is_none() || !packages.contains(root) {
            return Err(IndexError::RootNotResolved(root));
        }
        if let Some(u) = find_unknown(&direct, &packages) {
            return Err(IndexError::UnknownPackage(u));
        }
        Ok(DependencyIndex { packages, direct_dependencies: direct, root })
    }

    /// The direct dependencies of the root package.
    pub open spec fn root_direct(&self) -> Seq<u64> {
        deps_of(self.entries(), self.root_id()).unwrap()
    }

    pub fn root(&self) -> (r: u64)
        ensures
            r == self.root_id(),
    {
        self.root
    }

    pub fn packages(&self) -> (r: &PackageMap)
        ensures
            r@ == self.packages_view(),
    {
        &self.packages
    }

    pub fn direct_dependencies(&self) -> (r: &DirectDependencyMap)
        ensures
            r@ == self.entries(),
    {
        &self.direct_dependencies
    }

    /// The root package.
    pub fn root_package(&self) -> (r: &Package)
        requires
            self.wf(),
        ensures
            package_of(self.packages_view(), self.root_id()) == Some(*r),
    {
        self.packages.get(self.root).unwrap()
    }

    /// The direct normal dependencies of a package, in edge order.
    pub fn get_dependencies(&self, id: u64) -> (r: Vec<u64>)
        ensures
            r@ == match deps_of(self.entries(), id) {
                Some(d) => d,
                None => Seq::empty(),
            },
    {
        match self.direct_dependencies.get(id) {
            Some(d) => d.clone(),
            None => Vec::new(),
        }
    }

    /// The package ids that the dependency entry point lists, sorted and
    /// each once: the root's direct dependencies, and the root itself when
    /// `include_root` is set.
    pub fn dependency_ids(&self, include_root: bool) -> (r: Vec<u64>)
        requires
            self.wf(),
        ensures
            strictly_sorted(r@),
            r@.to_set() == dependency_set(self.root_direct(), self.root_id(), include_root),
    {
        let mut ids = self.get_dependencies(self.root);
        if include_root {
            let ghost before = ids@;
            ids.push(self.root);
            proof {
                before.lemma_push_to_set_commute(self.root_id());
            }
        }
        sorted_unique(&ids)
    }

    /// The package ids that are a direct dependency of some package other
    /// than the root, sorted and each once.
    pub fn transitive_dependency_ids(&self) -> (r: Vec<u64>)
        ensures
            strictly_sorted(r@),
            r@.to_set() == transitive_set(self.entries(), self.root_id()),
    {
        let mut ids: Vec<u64> = Vec::new();
        let n = self.direct_dependencies.len();
        let mut i: usize = 0;
        while i < n
            invariant
                n == self.entries().len(),
                i <= n,
                ids@.to_set() == transitive_set(self.entries().subrange(0, i as int), self.root_id()),
            decreases n - i,
        {
            let (id, deps) = self.direct_dependencies.entry(i);
            let ghost before = ids@;
            let ghost es = self.entries();
            if id != self.root {
                let mut j: usize = 0;
                while j < deps.len()
                    invariant
                        j <= deps@.len(),
                        i < es.len(),
                        deps@ == es[i as int].1,
                        ids@.to_set() == before.to_set().union(deps@.subrange(0, j as int).to_set()),
                    decreases deps@.len() - j,
                {
                    let ghost prev = ids@;
                    ids.push(deps[j]);
                    proof {
                        prev.lemma_push_to_set_commute(deps@[j as int]);
                    }
                    proof {
                        assert(deps@.subrange(0, j + 1) =~= deps@.subrange(0, j as int).push(
                            deps@[j as int],
                        ));
                        deps@.subrange(0, j as int).lemma_push_to_set_commute(deps@[j as int]);
                    }
                    j = j + 1;
                }
                assert(deps@.subrange(0, j as int) =~= deps@);
            }
            assert(transitive_set(es.subrange(0, i + 1), self.root_id()) =~= if id != self.root {
                transitive_set(es.subrange(0, i as int), self.root_id()).union(es[i as int].1.to_set())
            } else {
                transitive_set(es.subrange(0, i as int), self.root_id())
            }) by {
                let s1 = es.subrange(0, i + 1);
                let s0 = es.subrange(0, i as int);
                assert forall|e: u64| transitive_set(s1, self.root_id()).contains(e) implies (if id
                    != self.root {
                    transitive_set(s0, self.root_id()).union(es[i as int].1.to_set())
                } else {
                    transitive_set(s0, self.root_id())
                }).contains(e) by {
                    let k = choose|k: int|
                        0 <= k < s1.len() && s1[k].0 != self.root_id() && s1[k].1.contains(e);
                    if k < i {
                        assert(s0[k] == s1[k]);
                    }
                }
                assert forall|e: u64|
                    (if id != self.root {
                        transitive_set(s0, self.root_id()).union(es[i as int].1.to_set())
                    } else {
                        transitive_set(s0, self.root_id())
                    }).contains(e) implies transitive_set(s1, self.root_id()).contains(e) by {
                    if transitive_set(s0, self.root_id()).contains(e) {
                        let k = choose|k: int|
                            0 <= k < s0.len() && s0[k].0 != self.root_id() && s0[k].1.contains(e);
                        assert(s1[k] == s0[k]);
                    } else {
                        assert(s1[i as int] == es[i as int]);
                    }
                }
            }
            i = i + 1;
        }
        assert(self.entries().subrange(0, i as int) =~= self.entries());
        sorted_unique(&ids)
    }
}

proof fn lemma_normal_deps_sound(deps: Seq<NodeDep>, id: u64)
    requires
        normal_deps(deps).contains(id),
    ensures
        exists|j: int| 0 <= j < deps.len() && deps[j].pkg == id && is_normal(deps[j]),
    decreases deps.len(),
{
    if deps.len() > 0 {
        let rest = normal_deps(deps.drop_last());
        if is_normal(deps.last()) && id == deps.last().pkg {
            assert(deps[deps.len() - 1].pkg == id);
        } else {
            if is_normal(deps.last()) {
                let k = choose|k: int| 0 <= k < rest.push(deps.last().pkg).len() && rest.push(
                    deps.last().pkg,
                )[k] == id;
                assert(k < rest.len());
                assert(rest[k] == id);
            }
            assert(rest.contains(id));
            lemma_normal_deps_sound(deps.drop_last(), id);
            let j = choose|j: int|
                0 <= j < deps.drop_last().len() && deps.drop_last()[j].pkg == id && is_normal(
                    deps.drop_last()[j],
                );
            assert(deps[j] == deps.drop_last()[j]);
        }
    }
}

/// An edge enters the direct-dependency index only if it is declared
/// normal: one whose only kinds are build or development never does.
pub proof fn direct_edges_are_normal(nodes: Seq<Node>, i: int, id: u64)
    requires
        0 <= i < nodes.len(),
        direct_entries(nodes)[i].1.contains(id),
    ensures
        direct_entries(nodes)[i].0 == nodes[i].id,
        exists|j: int|
            0 <= j < nodes[i].deps@.len() && nodes[i].deps@[j].pkg == id
                && nodes[i].deps@[j].dep_kinds@.contains(DependencyKind::Normal),
{
    lemma_normal_deps_sound(nodes[i].deps@, id);
}

/// Asking for the root as well adds exactly one entry, the root, to the
/// direct dependencies of the root, provided the root is not its own direct
/// dependency.
pub proof fn root_inclusion_symmetry(
    index: DependencyIndex,
    with_root: Seq<u64>,
    without_root: Seq<u64>,
)
    requires
        index.wf(),
        !index.root_direct().contains(index.root_id()),
        strictly_sorted(with_root),
        with_root.to_set() == dependency_set(index.root_direct(), index.root_id(), true),
        strictly_sorted(without_root),
        without_root.to_set() == dependency_set(index.root_direct(), index.root_id(), false),
    ensures
        with_root.to_set() == without_root.to_set().insert(index.root_id()),
        !without_root.contains(index.root_id()),
        with_root.len() == without_root.len() + 1,
{
    let root = index.root_id();
    assert(!without_root.to_set().contains(root));
    lemma_sorted_len(with_root);
    lemma_sorted_len(without_root);
    vstd::seq_lib::seq_to_set_is_finite(without_root);
}

/// No package in the transitive-only set is reached only as a direct
/// dependency of the root: some other package depends on it directly.
pub proof fn transitive_exclusivity(index: DependencyIndex, transitive: Seq<u64>, id: u64)
    requires
        transitive.to_set() == transitive_set(index.entries(), index.root_id()),
        transitive.contains(id),
    ensures
        exists|i: int|
            0 <= i < index.entries().len() && index.entries()[i].0 != index.root_id()
                && index.entries()[i].1.contains(id),
{
    assert(transitive.to_set().contains(id));
}

} // verus!
