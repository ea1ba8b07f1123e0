use indicate::dependency::{
    DependencyIndex, DependencyKind, IndexError, Metadata, Node, NodeDep, Package,
};
use indicate::version::Version;

fn version(major: u64, minor: u64, patch: u64) -> Version {
    Version { major, minor, patch, pre: String::new(), build: String::new() }
}

fn package(id: u64, name: &str) -> Package {
    Package {
        id,
        id_text: format!("{name} 0.1.0"),
        name: name.to_string(),
        version: version(0, 1, 0),
        version_text: "0.1.0".to_string(),
        license: None,
        repository: None,
        manifest_path: format!("/src/{name}/Cargo.toml"),
        keywords: vec![],
        categories: vec![],
    }
}

fn dep(pkg: u64, kinds: &[DependencyKind]) -> NodeDep {
    NodeDep { pkg, dep_kinds: kinds.to_vec() }
}

/// root(0) -> a(1) normal, b(2) dev, c(3) build+normal; a -> d(4); c -> d, e(5) dev
fn sample_graph() -> Metadata {
    Metadata {
        packages: (0..6).map(|i| package(i, ["root", "a", "b", "c", "d", "e"][i as usize])).collect(),
        nodes: vec![
            Node {
                id: 0,
                deps: vec![
                    dep(1, &[DependencyKind::Normal]),
                    dep(2, &[DependencyKind::Development]),
                    dep(3, &[DependencyKind::Build, DependencyKind::Normal]),
                ],
            },
            Node { id: 1, deps: vec![dep(4, &[DependencyKind::Normal])] },
            Node { id: 2, deps: vec![] },
            Node {
                id: 3,
                deps: vec![dep(4, &[DependencyKind::Normal]), dep(5, &[DependencyKind::Development])],
            },
            Node { id: 4, deps: vec![] },
            Node { id: 5, deps: vec![] },
        ],
        root: Some(0),
    }
}

#[test]
fn dependency_resolve() {
    let index = DependencyIndex::build(sample_graph()).ok().unwrap();
    let map = index.direct_dependencies();
    for i in 0..map.len() {
        let (id, deps) = map.entry(i);
        println!("{id}: {deps:?}");
    }
}

#[test]
fn direct_dependencies_skip_dev_and_build_only_edges() {
    let index = DependencyIndex::build(sample_graph()).ok().unwrap();
    assert_eq!(index.get_dependencies(0), vec![1, 3]);
    assert_eq!(index.get_dependencies(3), vec![4]);
    assert_eq!(index.get_dependencies(2), Vec::<u64>::new());
    assert_eq!(index.get_dependencies(42), Vec::<u64>::new());
}

#[test]
fn dependencies_with_and_without_root() {
    let index = DependencyIndex::build(sample_graph()).ok().unwrap();
    let without = index.dependency_ids(false);
    let with = index.dependency_ids(true);
    assert_eq!(without, vec![1, 3]);
    assert_eq!(with, vec![0, 1, 3]);
    assert_eq!(with.len(), without.len() + 1);
}

#[test]
fn transitive_dependencies_exclude_root_only_edges() {
    let index = DependencyIndex::build(sample_graph()).ok().unwrap();
    // 4 is reached from a and c; 1 and 3 only from the root.
    assert_eq!(index.transitive_dependency_ids(), vec![4]);
}

#[test]
fn transitive_dependencies_are_sorted_and_unique() {
    let mut g = sample_graph();
    g.nodes[4].deps = vec![dep(2, &[DependencyKind::Normal]), dep(1, &[DependencyKind::Normal])];
    g.nodes[1].deps.push(dep(2, &[DependencyKind::Normal]));
    let index = DependencyIndex::build(g).ok().unwrap();
    assert_eq!(index.transitive_dependency_ids(), vec![1, 2, 4]);
}

#[test]
fn root_package_is_the_root() {
    let index = DependencyIndex::build(sample_graph()).ok().unwrap();
    assert_eq!(index.root(), 0);
    assert_eq!(index.root_package().name, "root");
    assert_eq!(index.packages().get(4).unwrap().name, "d");
    assert!(index.packages().get(9).is_none());
}

#[test]
fn index_without_root_fails() {
    let mut g = sample_graph();
    g.root = None;
    assert_eq!(DependencyIndex::build(g).err(), Some(IndexError::NoRoot));
}

#[test]
fn index_with_duplicate_package_fails() {
    let mut g = sample_graph();
    g.packages.push(package(3, "again"));
    assert_eq!(DependencyIndex::build(g).err(), Some(IndexError::DuplicateId(3)));
}

#[test]
fn index_with_duplicate_node_fails() {
    let mut g = sample_graph();
    g.nodes.push(Node { id: 4, deps: vec![] });
    assert_eq!(DependencyIndex::build(g).err(), Some(IndexError::DuplicateId(4)));
}

#[test]
fn index_with_unresolved_root_fails() {
    let mut g = sample_graph();
    g.root = Some(7);
    assert_eq!(DependencyIndex::build(g).err(), Some(IndexError::RootNotResolved(7)));
}

#[test]
fn index_with_unknown_package_fails() {
    let mut g = sample_graph();
    g.nodes[1].deps.push(dep(99, &[DependencyKind::Normal]));
    assert_eq!(DependencyIndex::build(g).err(), Some(IndexError::UnknownPackage(99)));
}
