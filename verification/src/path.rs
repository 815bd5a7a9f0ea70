//! Canonical filesystem paths, held as their segments.
//!
//! A path stands for an absolute, already-canonicalized location: no `..`,
//! no symlinks left to resolve. Its view is the sequence of its segments'
//! character sequences, so `/a/b.txt` is seen as `[['a'], ['b', '.', 't', 'x', 't']]`.

use vstd::prelude::*;
use vstd::string::StringExecFns;

verus! {

/// The textual form of a path: a `/` before each segment, so `[a, b.txt]`
/// renders as `/a/b.txt` and the empty path renders empty.
pub open spec fn render_path(p: Seq<Seq<char>>) -> Seq<char>
    decreases p.len(),
{
    if p.len() == 0 {
        Seq::empty()
    } else {
        render_path(p.drop_last()) + "/"@ + p.last()
    }
}

/// An absolute, canonical filesystem path as a list of segments, root first.
#[derive(Clone, Debug, PartialEq, Eq)]
pub struct FilePath {
    pub segments: Vec<String>,
}

impl View for FilePath {
    type V = Seq<Seq<char>>;

    open spec fn view(&self) -> Seq<Seq<char>> {
        self.segments@.map_values(|s: String| s@)
    }
}

/// `pre` names the same location as `p` or an ancestor of it:
/// every segment of `pre` is matched, in order, at the front of `p`.
pub open spec fn is_prefix_of(pre: Seq<Seq<char>>, p: Seq<Seq<char>>) -> bool {
    pre.len() <= p.len() && forall|i: int| 0 <= i < pre.len() ==> p[i] == pre[i]
}

impl FilePath {
    /// Wraps a ready list of segments as a path.
    pub fn from_segments(segments: Vec<String>) -> (r: FilePath)
        ensures
            r@ == segments@.map_values(|s: String| s@),
    {
        FilePath { segments }
    }

    /// Segment-wise equality of two paths.
    pub fn eq_path(&self, other: &FilePath) -> (r: bool)
        ensures
            r == (self@ == other@),
    {
        if self.segments.len() != other.segments.len() {
            assert(self@.len() != other@.len());
            return false;
        }
        let n: usize = self.segments.len();
        let mut i: usize = 0;
        while i < n
            invariant
                n == self.segments.len(),
                n == other.segments.len(),
                i <= n,
                forall|j: int| 0 <= j < i ==> self@[j] == other@[j],
            decreases n - i,
        {
            if !self.segments[i].eq(&other.segments[i]) {
                assert(self@[i as int] != other@[i as int]);
                return false;
            }
            i += 1;
        }
        assert(self@ =~= other@);
        true
    }

    /// Whether `prefix` is this path or one of its ancestors.
    pub fn starts_with(&self, prefix: &FilePath) -> (r: bool)
        ensures
            r == is_prefix_of(prefix@, self@),
    {
        if prefix.segments.len() > self.segments.len() {
            return false;
        }
        let n: usize = prefix.segments.len();
        let mut i: usize = 0;
        while i < n
            invariant
                n == prefix.segments.len(),
                n <= self.segments.len(),
                i <= n,
                forall|j: int| 0 <= j < i ==> self@[j] == prefix@[j],
            decreases n - i,
        {
            if !self.segments[i].eq(&prefix.segments[i]) {
                assert(self@[i as int] != prefix@[i as int]);
                return false;
            }
            i += 1;
        }
        true
    }

    /// The path's textual form, for messages: `/` before each segment.
    pub fn display_string(&self) -> (r: String)
        ensures
            r@ == render_path(self@),
    {
        let mut s = String::new();
        let n: usize = self.segments.len();
        let mut i: usize = 0;
        while i < n
            invariant
                n == self.segments.len(),
                i <= n,
                s@ == render_path(self@.take(i as int)),
            decreases n - i,
        {
            s.append("/");
            s.append(self.segments[i].as_str());
            proof {
                assert(self@.take(i as int + 1).drop_last() =~= self@.take(i as int));
                assert(self@.take(i as int + 1).last() == self@[i as int]);
            }
            i += 1;
        }
        proof {
            assert(self@.take(n as int) =~= self@);
        }
        s
    }

    /// A fresh path with the same segments.
    pub fn duplicate(&self) -> (r: FilePath)
        ensures
            r@ == self@,
    {
        let n: usize = self.segments.len();
        let mut segments: Vec<String> = Vec::new();
        let mut i: usize = 0;
        while i < n
            invariant
                n == self.segments.len(),
                i <= n,
                segments@.len() == i,
                forall|j: int| 0 <= j < i ==> segments@[j]@ == self@[j],
            decreases n - i,
        {
            segments.push(self.segments[i].clone());
            i += 1;
        }
        let r = FilePath { segments };
        assert(r@ =~= self@);
        r
    }
}

} // verus!
