//! The batch-link planner.
//!
//! Given a snapshot of the relevant filesystem, a source root and a
//! destination root, `links` computes which regular files of the source
//! tree should be linked into the destination tree: each planned entry
//! mirrors the file's position relative to the source root under the
//! destination root. Directory allow/deny lists filter the candidates,
//! a depth switch limits the walk to direct children, and an existing
//! destination blocks an entry unless the caller forces overwriting.

use vstd::prelude::*;

use crate::fstree::{all_present, tree_has_path, FsNode, FsTree, NodeKind};
use crate::path::{is_prefix_of, FilePath};

verus! {

/// One planned link: make `destination_path` point at `source_path`.
#[derive(Debug, PartialEq, Eq)]
pub struct PlanEntry {
    pub source_path: FilePath,
    pub destination_path: FilePath,
}

/// Why a whole planning run was rejected before any traversal.
#[derive(Clone, Copy, Debug, PartialEq, Eq, Structural)]
pub enum PlanError {
    /// The source or the destination root is missing from the snapshot.
    NonexistentRoot,
    /// A path of the allow or deny list is missing from the snapshot.
    NonexistentFilterPath,
}

/// The parameters of one planning run, at the specification level:
/// path views instead of paths.
pub ghost struct PlanQuery {
    pub src: Seq<Seq<char>>,
    pub dst: Seq<Seq<char>>,
    pub inclusive: Seq<Seq<Seq<char>>>,
    pub exclusive: Seq<Seq<Seq<char>>>,
    pub recursively: bool,
    pub force: bool,
}

/// The query that a `links` call with these arguments asks.
pub open spec fn query_view(
    src: FilePath,
    dst: FilePath,
    inclusive: Seq<FilePath>,
    exclusive: Seq<FilePath>,
    recursively: bool,
    force: bool,
) -> PlanQuery {
    PlanQuery {
        src: src@,
        dst: dst@,
        inclusive: inclusive.map_values(|q: FilePath| q@),
        exclusive: exclusive.map_values(|q: FilePath| q@),
        recursively,
        force,
    }
}

/// Where a source file at `p` is mirrored to: the destination root,
/// extended with `p`'s segments past the source root.
pub open spec fn dest_for(q: PlanQuery, p: Seq<Seq<char>>) -> Seq<Seq<char>> {
    q.dst + p.skip(q.src.len() as int)
}

/// `p` is equal to, or lies under, some path of the deny list.
pub open spec fn path_excluded(p: Seq<Seq<char>>, exclusive: Seq<Seq<Seq<char>>>) -> bool {
    exists|i: int| 0 <= i < exclusive.len() && is_prefix_of(exclusive[i], p)
}

/// `p` passes the allow list: the list is empty, or `p` is equal to
/// or lies under some path of it.
pub open spec fn path_included(p: Seq<Seq<char>>, inclusive: Seq<Seq<Seq<char>>>) -> bool {
    inclusive.len() == 0 || exists|i: int| 0 <= i < inclusive.len() && is_prefix_of(inclusive[i], p)
}

/// The combined directory filter: the deny list wins over the allow list.
pub open spec fn filter_allows(p: Seq<Seq<char>>, q: PlanQuery) -> bool {
    !path_excluded(p, q.exclusive) && path_included(p, q.inclusive)
}

/// The depth bound: without recursion only the source root itself and
/// its direct children are visited.
pub open spec fn depth_allowed(p: Seq<Seq<char>>, q: PlanQuery) -> bool {
    q.recursively || p.len() <= q.src.len() + 1
}

/// Whether snapshot entry `n` yields a plan entry: it lies under the
/// source root within the depth bound, passes the filter, is a regular
/// file, and its mirrored destination is free (or overwriting is forced).
pub open spec fn emits(q: PlanQuery, nodes: Seq<FsNode>, n: FsNode) -> bool {
    &&& is_prefix_of(q.src, n.path@)
    &&& depth_allowed(n.path@, q)
    &&& filter_allows(n.path@, q)
    &&& n.kind is File
    &&& (q.force || !tree_has_path(nodes, dest_for(q, n.path@)))
}

/// The plan drawn from the first `k` snapshot entries, in order: for each
/// emitting entry, the pair of its path view and its destination's view.
pub open spec fn plan_upto(q: PlanQuery, nodes: Seq<FsNode>, k: int) -> Seq<
    (Seq<Seq<char>>, Seq<Seq<char>>),
>
    decreases k,
{
    if k <= 0 {
        Seq::empty()
    } else {
        let prev = plan_upto(q, nodes, k - 1);
        let n = nodes[k - 1];
        if emits(q, nodes, n) {
            prev.push((n.path@, dest_for(q, n.path@)))
        } else {
            prev
        }
    }
}

/// The full plan of a query over a snapshot.
pub open spec fn link_plan(q: PlanQuery, nodes: Seq<FsNode>) -> Seq<
    (Seq<Seq<char>>, Seq<Seq<char>>),
> {
    plan_upto(q, nodes, nodes.len() as int)
}

/// The produced entries spell out exactly the pairs of `plan`, in order.
pub open spec fn entries_match(
    entries: Seq<PlanEntry>,
    plan: Seq<(Seq<Seq<char>>, Seq<Seq<char>>)>,
) -> bool {
    &&& entries.len() == plan.len()
    &&& forall|i: int|
        0 <= i < entries.len() ==> entries[i].source_path@ == plan[i].0
            && entries[i].destination_path@ == plan[i].1
}

/// Builds the destination path for the source file `p`: the destination
/// root's segments, then `p`'s segments from position `skip` on.
fn joined_dest(dst: &FilePath, p: &FilePath, skip: usize) -> (r: FilePath)
    requires
        skip <= p.segments.len(),
    ensures
        r@ == dst@ + p@.skip(skip as int),
{
    let mut segments: Vec<String> = Vec::new();
    let dn: usize = dst.segments.len();
    let mut i: usize = 0;
    while i < dn
        invariant
            dn == dst.segments.len(),
            i <= dn,
            segments@.len() == i,
            forall|j: int| 0 <= j < i ==> segments@[j]@ == dst@[j],
        decreases dn - i,
    {
        segments.push(dst.segments[i].clone());
        i += 1;
    }
    let pn: usize = p.segments.len();
    let mut k: usize = skip;
    while k < pn
        invariant
            dn == dst.segments.len(),
            pn == p.segments.len(),
            skip <= k <= pn,
            segments@.len() == dn + (k - skip),
            forall|j: int| 0 <= j < dn ==> segments@[j]@ == dst@[j],
            forall|j: int| dn <= j < segments@.len() ==> segments@[j]@ == p@[j - dn + skip],
        decreases pn - k,
    {
        segments.push(p.segments[k].clone());
        k += 1;
    }
    let r = FilePath { segments };
    assert(r@ =~= dst@ + p@.skip(skip as int));
    r
}

/// The directory filter as executable code.
fn filter_allows_exec(p: &FilePath, inclusive: &Vec<FilePath>, exclusive: &Vec<FilePath>) -> (r:
    bool)
    ensures
        r == (!path_excluded(p@, exclusive@.map_values(|q: FilePath| q@)) && path_included(
            p@,
            inclusive@.map_values(|q: FilePath| q@),
        )),
{
    let en: usize = exclusive.len();
    let mut i: usize = 0;
    while i < en
        invariant
            en == exclusive.len(),
            i <= en,
            forall|j: int| 0 <= j < i ==> !is_prefix_of(exclusive@[j]@, p@),
        decreases en - i,
    {
        if p.starts_with(&exclusive[i]) {
            assert(exclusive@.map_values(|q: FilePath| q@)[i as int] == exclusive@[i as int]@);
            assert(path_excluded(p@, exclusive@.map_values(|q: FilePath| q@)));
            return false;
        }
        i += 1;
    }
    assert(!path_excluded(p@, exclusive@.map_values(|q: FilePath| q@)));
    if inclusive.len() == 0 {
        return true;
    }
    let inn: usize = inclusive.len();
    let mut k: usize = 0;
    while k < inn
        invariant
            inn == inclusive.len(),
            k <= inn,
            !path_excluded(p@, exclusive@.map_values(|q: FilePath| q@)),
            forall|j: int| 0 <= j < k ==> !is_prefix_of(inclusive@[j]@, p@),
        decreases inn - k,
    {
        if p.starts_with(&inclusive[k]) {
            assert(inclusive@.map_values(|q: FilePath| q@)[k as int] == inclusive@[k as int]@);
            assert(path_included(p@, inclusive@.map_values(|q: FilePath| q@)));
            return true;
        }
        k += 1;
    }
    assert(!path_included(p@, inclusive@.map_values(|q: FilePath| q@)));
    false
}

/// Plans the links from the source tree into the destination tree.
///
/// Walks the snapshot in order and emits, for every regular file under
/// `src` that the depth bound and the allow/deny filter let through, the
/// pair of its path and its mirrored path under `dst` — skipping files
/// whose destination already exists unless `force` is set. The whole run
/// is rejected up front if a root or a filter path is missing from the
/// snapshot.
pub fn links(
    tree: &FsTree,
    src: &FilePath,
    dst: &FilePath,
    inclusive: &Vec<FilePath>,
    exclusive: &Vec<FilePath>,
    recursively: bool,
    force: bool,
) -> (r: Result<Vec<PlanEntry>, PlanError>)
    ensures
        (r matches Err(e) && e is NonexistentRoot) <==> !(tree_has_path(tree.nodes@, src@)
            && tree_has_path(tree.nodes@, dst@)),
        (r matches Err(e) && e is NonexistentFilterPath) <==> (tree_has_path(tree.nodes@, src@)
            && tree_has_path(tree.nodes@, dst@) && !(all_present(tree.nodes@, inclusive@)
            && all_present(tree.nodes@, exclusive@))),
        r matches Ok(entries) ==> entries_match(
            entries@,
            link_plan(query_view(*src, *dst, inclusive@, exclusive@, recursively, force),
                tree.nodes@),
        ),
{
    if !tree.contains_path(src) || !tree.contains_path(dst) {
        return Err(PlanError::NonexistentRoot);
    }
    if !tree.contains_all(inclusive) || !tree.contains_all(exclusive) {
        return Err(PlanError::NonexistentFilterPath);
    }

    let ghost q = query_view(*src, *dst, inclusive@, exclusive@, recursively, force);
    let mut out: Vec<PlanEntry> = Vec::new();
    let n: usize = tree.nodes.len();
    let mut i: usize = 0;
    while i < n
        invariant
            n == tree.nodes.len(),
            i <= n,
            q == query_view(*src, *dst, inclusive@, exclusive@, recursively, force),
            entries_match(out@, plan_upto(q, tree.nodes@, i as int)),
        decreases n - i,
    {
        let node = &tree.nodes[i];
        if node.path.starts_with(src) && (recursively || node.path.segments.len()
            - src.segments.len() <= 1) {
            if filter_allows_exec(&node.path, inclusive, exclusive) {
                if node.kind == NodeKind::File {
                    let to = joined_dest(dst, &node.path, src.segments.len());
                    assert(to@ == dest_for(q, node.path@));
                    if force || !tree.contains_path(&to) {
                        assert(emits(q, tree.nodes@, tree.nodes@[i as int]));
                        out.push(
                            PlanEntry {
                                source_path: node.path.duplicate(),
                                destination_path: to,
                            },
                        );
                    } else {
                        assert(!emits(q, tree.nodes@, tree.nodes@[i as int]));
                    }
                } else {
                    assert(!emits(q, tree.nodes@, tree.nodes@[i as int]));
                }
            } else {
                assert(!emits(q, tree.nodes@, tree.nodes@[i as int]));
            }
        } else {
            assert(!emits(q, tree.nodes@, tree.nodes@[i as int]));
        }
        i += 1;
    }
    Ok(out)
}

/// The pair `e` is what some emitting snapshot entry yields.
pub open spec fn entry_emitted(
    q: PlanQuery,
    nodes: Seq<FsNode>,
    e: (Seq<Seq<char>>, Seq<Seq<char>>),
) -> bool {
    exists|i: int|
        0 <= i < nodes.len() && emits(q, nodes, nodes[i]) && e.0 == nodes[i].path@ && e.1
            == dest_for(q, nodes[i].path@)
}

proof fn lemma_plan_upto_entries(q: PlanQuery, nodes: Seq<FsNode>, k: int)
    requires
        0 <= k <= nodes.len(),
    ensures
        forall|j: int|
            0 <= j < plan_upto(q, nodes, k).len() ==> #[trigger] entry_emitted(
                q,
                nodes,
                plan_upto(q, nodes, k)[j],
            ),
    decreases k,
{
    if k > 0 {
        lemma_plan_upto_entries(q, nodes, k - 1);
        let prev = plan_upto(q, nodes, k - 1);
        let plan = plan_upto(q, nodes, k);
        if emits(q, nodes, nodes[k - 1]) {
            assert forall|j: int| 0 <= j < plan.len() implies #[trigger] entry_emitted(
                q,
                nodes,
                plan[j],
            ) by {
                if j < prev.len() {
                    assert(plan[j] == prev[j]);
                } else {
                    assert(plan[j] == (nodes[k - 1].path@, dest_for(q, nodes[k - 1].path@)));
                    assert(0 <= k - 1 < nodes.len() && emits(q, nodes, nodes[k - 1]));
                }
            }
        }
    }
}

/// Every pair of the full plan comes from an emitting snapshot entry.
pub proof fn lemma_plan_entries(q: PlanQuery, nodes: Seq<FsNode>)
    ensures
        forall|j: int|
            0 <= j < link_plan(q, nodes).len() ==> #[trigger] entry_emitted(
                q,
                nodes,
                link_plan(q, nodes)[j],
            ),
{
    lemma_plan_upto_entries(q, nodes, nodes.len() as int);
}

/// Only regular files are planned: every pair's source is the path of a
/// snapshot entry of kind `File`, never of a directory.
pub proof fn lemma_sources_are_files(q: PlanQuery, nodes: Seq<FsNode>, j: int)
    requires
        0 <= j < link_plan(q, nodes).len(),
    ensures
        exists|i: int|
            0 <= i < nodes.len() && nodes[i].path@ == link_plan(q, nodes)[j].0 && nodes[i].kind
                is File,
{
    lemma_plan_entries(q, nodes);
    assert(entry_emitted(q, nodes, link_plan(q, nodes)[j]));
    let i = choose|i: int|
        0 <= i < nodes.len() && emits(q, nodes, nodes[i]) && link_plan(q, nodes)[j].0
            == nodes[i].path@ && link_plan(q, nodes)[j].1 == dest_for(q, nodes[i].path@);
    assert(nodes[i].kind is File);
}

/// Every planned destination mirrors its source: it is the destination
/// root joined with the source path's segments past the source root.
pub proof fn lemma_destination_mirrors(q: PlanQuery, nodes: Seq<FsNode>, j: int)
    requires
        0 <= j < link_plan(q, nodes).len(),
    ensures
        is_prefix_of(q.src, link_plan(q, nodes)[j].0),
        link_plan(q, nodes)[j].1 == q.dst + link_plan(q, nodes)[j].0.skip(q.src.len() as int),
{
    lemma_plan_entries(q, nodes);
    assert(entry_emitted(q, nodes, link_plan(q, nodes)[j]));
    let i = choose|i: int|
        0 <= i < nodes.len() && emits(q, nodes, nodes[i]) && link_plan(q, nodes)[j].0
            == nodes[i].path@ && link_plan(q, nodes)[j].1 == dest_for(q, nodes[i].path@);
    assert(is_prefix_of(q.src, nodes[i].path@));
}

/// The deny list wins over the allow list: no planned source is equal to
/// or lies under a denied path, whether or not an allowed path also covers
/// it.
pub proof fn lemma_exclusion_wins(q: PlanQuery, nodes: Seq<FsNode>, j: int)
    requires
        0 <= j < link_plan(q, nodes).len(),
    ensures
        !path_excluded(link_plan(q, nodes)[j].0, q.exclusive),
{
    lemma_plan_entries(q, nodes);
    assert(entry_emitted(q, nodes, link_plan(q, nodes)[j]));
    let i = choose|i: int|
        0 <= i < nodes.len() && emits(q, nodes, nodes[i]) && link_plan(q, nodes)[j].0
            == nodes[i].path@ && link_plan(q, nodes)[j].1 == dest_for(q, nodes[i].path@);
    assert(filter_allows(nodes[i].path@, q));
}

/// Without recursion, no planned source sits more than one level below
/// the source root.
pub proof fn lemma_depth_bound(q: PlanQuery, nodes: Seq<FsNode>, j: int)
    requires
        !q.recursively,
        0 <= j < link_plan(q, nodes).len(),
    ensures
        link_plan(q, nodes)[j].0.len() <= q.src.len() + 1,
{
    lemma_plan_entries(q, nodes);
    assert(entry_emitted(q, nodes, link_plan(q, nodes)[j]));
    let i = choose|i: int|
        0 <= i < nodes.len() && emits(q, nodes, nodes[i]) && link_plan(q, nodes)[j].0
            == nodes[i].path@ && link_plan(q, nodes)[j].1 == dest_for(q, nodes[i].path@);
    assert(depth_allowed(nodes[i].path@, q));
}

/// Without force, an already existing destination is preserved: no planned
/// destination is a path of the snapshot.
pub proof fn lemma_existing_destination_preserved(q: PlanQuery, nodes: Seq<FsNode>, j: int)
    requires
        !q.force,
        0 <= j < link_plan(q, nodes).len(),
    ensures
        !tree_has_path(nodes, link_plan(q, nodes)[j].1),
{
    lemma_plan_entries(q, nodes);
    assert(entry_emitted(q, nodes, link_plan(q, nodes)[j]));
    let i = choose|i: int|
        0 <= i < nodes.len() && emits(q, nodes, nodes[i]) && link_plan(q, nodes)[j].0
            == nodes[i].path@ && link_plan(q, nodes)[j].1 == dest_for(q, nodes[i].path@);
    assert(!tree_has_path(nodes, dest_for(q, nodes[i].path@)));
}

/// The plan is a function of the snapshot and the request alone: any two
/// entry vectors that spell out the same plan agree entry by entry, so a
/// second run over an unchanged snapshot yields the same links.
pub proof fn lemma_plan_deterministic(
    q: PlanQuery,
    nodes: Seq<FsNode>,
    first: Seq<PlanEntry>,
    second: Seq<PlanEntry>,
)
    requires
        entries_match(first, link_plan(q, nodes)),
        entries_match(second, link_plan(q, nodes)),
    ensures
        first.len() == second.len(),
        forall|i: int|
            0 <= i < first.len() ==> first[i].source_path@ == second[i].source_path@
                && first[i].destination_path@ == second[i].destination_path@,
{
    assert forall|i: int|
        0 <= i < first.len() implies first[i].source_path@ == second[i].source_path@
        && first[i].destination_path@ == second[i].destination_path@ by {
        assert(first[i].source_path@ == link_plan(q, nodes)[i].0);
        assert(second[i].source_path@ == link_plan(q, nodes)[i].0);
        assert(first[i].destination_path@ == link_plan(q, nodes)[i].1);
        assert(second[i].destination_path@ == link_plan(q, nodes)[i].1);
    }
}

} // verus!
