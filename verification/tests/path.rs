use dotfileutil::path::FilePath;

fn fp(s: &str) -> FilePath {
    FilePath::from_segments(s.split('/').map(|x| x.to_string()).collect())
}

#[test]
fn path_equality_is_segment_wise() {
    assert!(fp("a/b").eq_path(&fp("a/b")));
    assert!(!fp("a/b").eq_path(&fp("a/c")));
    assert!(!fp("a/b").eq_path(&fp("a/b/c")));
    assert!(!fp("a").eq_path(&fp("b")));
}

#[test]
fn starts_with_means_equal_or_ancestor() {
    assert!(fp("a/b/c").starts_with(&fp("a/b")));
    assert!(fp("a/b").starts_with(&fp("a/b")));
    assert!(!fp("a/b").starts_with(&fp("a/b/c")));
    assert!(!fp("a/bc").starts_with(&fp("a/b")));
    assert!(!fp("x/b").starts_with(&fp("a")));
}

#[test]
fn display_prefixes_each_segment_with_a_slash() {
    assert_eq!(fp("home/u/f.txt").display_string(), "/home/u/f.txt");
    assert_eq!(fp("a").display_string(), "/a");
}

#[test]
fn duplicate_copies_all_segments() {
    let p = fp("one/two/three");
    let q = p.duplicate();
    assert_eq!(p, q);
    assert_eq!(q.segments, ["one", "two", "three"]);
}
