//! A snapshot of the part of the filesystem that a planning run may read:
//! every relevant canonical path together with what kind of entry sits there.
//!
//! The snapshot is plain data. Whoever builds it (the command-line layer
//! walks the real directories) decides which paths are in it; entries that
//! could not be read or canonicalized are simply absent, which matches the
//! best-effort traversal the planner promises.

use vstd::prelude::*;

use crate::path::FilePath;

verus! {

/// What kind of entry a snapshot path points at.
#[derive(Clone, Copy, Debug, PartialEq, Eq, Structural)]
pub enum NodeKind {
    /// A regular file: the only kind that may become a link source.
    File,
    /// A directory.
    Directory,
    /// Anything else: a symlink, device, socket, ...
    Other,
}

/// One snapshot entry: a canonical path and its kind.
#[derive(Debug)]
pub struct FsNode {
    pub path: FilePath,
    pub kind: NodeKind,
}

/// A filesystem snapshot, in traversal order.
#[derive(Debug)]
pub struct FsTree {
    pub nodes: Vec<FsNode>,
}

/// Some snapshot entry sits at path `p`.
pub open spec fn tree_has_path(nodes: Seq<FsNode>, p: Seq<Seq<char>>) -> bool {
    exists|i: int| 0 <= i < nodes.len() && nodes[i].path@ == p
}

/// Every path of `paths` is present in the snapshot.
pub open spec fn all_present(nodes: Seq<FsNode>, paths: Seq<FilePath>) -> bool {
    forall|i: int| 0 <= i < paths.len() ==> tree_has_path(nodes, paths[i]@)
}

impl FsTree {
    /// Whether the snapshot holds an entry at `p`, of any kind.
    pub fn contains_path(&self, p: &FilePath) -> (r: bool)
        ensures
            r == tree_has_path(self.nodes@, p@),
    {
        let n: usize = self.nodes.len();
        let mut i: usize = 0;
        while i < n
            invariant
                n == self.nodes.len(),
                i <= n,
                forall|j: int| 0 <= j < i ==> self.nodes@[j].path@ != p@,
            decreases n - i,
        {
            if self.nodes[i].path.eq_path(p) {
                return true;
            }
            i += 1;
        }
        false
    }

    /// Whether every path of `paths` is present in the snapshot.
    pub fn contains_all(&self, paths: &Vec<FilePath>) -> (r: bool)
        ensures
            r == all_present(self.nodes@, paths@),
    {
        let n: usize = paths.len();
        let mut i: usize = 0;
        while i < n
            invariant
                n == paths.len(),
                i <= n,
                forall|j: int| 0 <= j < i ==> tree_has_path(self.nodes@, paths@[j]@),
            decreases n - i,
        {
            if !self.contains_path(&paths[i]) {
                return false;
            }
            i += 1;
        }
        true
    }
}

} // verus!
