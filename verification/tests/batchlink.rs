use dotfileutil::batchlink::{links, PlanError};
use dotfileutil::fstree::{FsNode, FsTree, NodeKind};
use dotfileutil::path::FilePath;

fn fp(s: &str) -> FilePath {
    FilePath::from_segments(s.split('/').map(|x| x.to_string()).collect())
}

fn node(s: &str, kind: NodeKind) -> FsNode {
    FsNode { path: fp(s), kind }
}

fn sample_tree(dst_has_a: bool) -> FsTree {
    let mut nodes = vec![
        node("src", NodeKind::Directory),
        node("src/a.txt", NodeKind::File),
        node("src/a", NodeKind::Directory),
        node("src/a/b.txt", NodeKind::File),
        node("src/a/c.txt", NodeKind::File),
        node("dst", NodeKind::Directory),
    ];
    if dst_has_a {
        nodes.push(node("dst/a.txt", NodeKind::File));
    }
    FsTree { nodes }
}

#[test]
fn test_link() {
    let tree = sample_tree(true);
    let src = fp("src");
    let dst = fp("dst");

    let links = links(&tree, &src, &dst, &vec![], &vec![], true, false).unwrap();

    assert_eq!(links.len(), 2);
    assert!(links.iter().all(|p| p.source_path != fp("src/a.txt")));
    assert!(links
        .iter()
        .any(|p| p.source_path == fp("src/a/b.txt") && p.destination_path == fp("dst/a/b.txt")));
    assert!(links
        .iter()
        .any(|p| p.source_path == fp("src/a/c.txt") && p.destination_path == fp("dst/a/c.txt")));
}

#[test]
fn test_link_when_in_and_ex() {
    let tree = sample_tree(true);
    let src = fp("src");
    let dst = fp("dst");

    let inclusive = vec![fp("src/a/b.txt")];
    let exclusive = vec![fp("src/a/c.txt")];

    let links = links(&tree, &src, &dst, &inclusive, &exclusive, true, false).unwrap();

    assert_eq!(links.len(), 1);
    assert_eq!(links[0].source_path, fp("src/a/b.txt"));
    assert_eq!(links[0].destination_path, fp("dst/a/b.txt"));
}

#[test]
fn test_link_when_no_recursively() {
    let tree = sample_tree(false);
    let src = fp("src");
    let dst = fp("dst");

    let links = links(&tree, &src, &dst, &vec![], &vec![], false, false).unwrap();
    assert_eq!(links.len(), 1);
}

#[test]
fn non_recursive_links_only_direct_children() {
    let tree = sample_tree(false);
    let out = links(&tree, &fp("src"), &fp("dst"), &vec![], &vec![], false, false).unwrap();
    assert_eq!(out.len(), 1);
    assert_eq!(out[0].source_path, fp("src/a.txt"));
    assert_eq!(out[0].destination_path, fp("dst/a.txt"));
}

#[test]
fn exclusion_wins_over_inclusion() {
    let tree = sample_tree(false);
    let inclusive = vec![fp("src/a")];
    let exclusive = vec![fp("src/a")];
    let out = links(&tree, &fp("src"), &fp("dst"), &inclusive, &exclusive, true, false).unwrap();
    assert!(out.is_empty());
}

#[test]
fn force_overwrites_existing_destination() {
    let tree = sample_tree(true);
    let out = links(&tree, &fp("src"), &fp("dst"), &vec![], &vec![], true, true).unwrap();
    assert_eq!(out.len(), 3);
    assert!(out
        .iter()
        .any(|p| p.source_path == fp("src/a.txt") && p.destination_path == fp("dst/a.txt")));
}

#[test]
fn existing_destination_is_preserved_without_force() {
    let tree = sample_tree(true);
    let out = links(&tree, &fp("src"), &fp("dst"), &vec![], &vec![], true, false).unwrap();
    assert!(out.iter().all(|p| p.destination_path != fp("dst/a.txt")));
}

#[test]
fn missing_root_is_rejected() {
    let tree = sample_tree(true);
    let err = links(&tree, &fp("nowhere"), &fp("dst"), &vec![], &vec![], true, false).unwrap_err();
    assert_eq!(err, PlanError::NonexistentRoot);
    let err = links(&tree, &fp("src"), &fp("nowhere"), &vec![], &vec![], true, false).unwrap_err();
    assert_eq!(err, PlanError::NonexistentRoot);
}

#[test]
fn missing_filter_path_is_rejected() {
    let tree = sample_tree(true);
    let inclusive = vec![fp("src/missing")];
    let err =
        links(&tree, &fp("src"), &fp("dst"), &inclusive, &vec![], true, false).unwrap_err();
    assert_eq!(err, PlanError::NonexistentFilterPath);
    let exclusive = vec![fp("src/missing")];
    let err =
        links(&tree, &fp("src"), &fp("dst"), &vec![], &exclusive, true, false).unwrap_err();
    assert_eq!(err, PlanError::NonexistentFilterPath);
}

#[test]
fn planning_twice_yields_the_same_links() {
    let tree = sample_tree(true);
    let first = links(&tree, &fp("src"), &fp("dst"), &vec![], &vec![], true, false).unwrap();
    let second = links(&tree, &fp("src"), &fp("dst"), &vec![], &vec![], true, false).unwrap();
    assert_eq!(first, second);
}

#[test]
fn destinations_mirror_source_structure() {
    let tree = sample_tree(false);
    let out = links(&tree, &fp("src"), &fp("dst"), &vec![], &vec![], true, false).unwrap();
    assert_eq!(out.len(), 3);
    for entry in &out {
        let rel = &entry.source_path.segments[fp("src").segments.len()..];
        let mut expected = fp("dst").segments.clone();
        expected.extend_from_slice(rel);
        assert_eq!(entry.destination_path.segments, expected);
    }
}

#[test]
fn directories_are_never_link_sources() {
    let tree = sample_tree(false);
    let out = links(&tree, &fp("src"), &fp("dst"), &vec![], &vec![], true, false).unwrap();
    assert!(out.iter().all(|p| p.source_path != fp("src") && p.source_path != fp("src/a")));
}
