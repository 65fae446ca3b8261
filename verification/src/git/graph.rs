//! Laying out the commit graph: a lane for each commit and an edge to each
//! of its parents.

use vstd::prelude::*;
use crate::git::types::{
    CommitGraphRow,
    CommitGraphRowView,
    CommitInfo,
    CommitInfoView,
    GraphEdge,
    GraphEdgeView,
    GraphNodeType,
};

verus! {

/// The lanes of a layout in progress: each is empty or waits for a commit.
pub type Lanes = Seq<Option<Seq<char>>>;

/// The first lane at or after `from` that waits for `oid`, or the number of
/// lanes where none does.
pub open spec fn find_waiting(lanes: Lanes, oid: Seq<char>, from: int) -> int
    decreases lanes.len() - from,
{
    if from < 0 || from >= lanes.len() {
        lanes.len() as int
    } else if lanes[from] == Some(oid) {
        from
    } else {
        find_waiting(lanes, oid, from + 1)
    }
}

/// The first empty lane at or after `from`, or the number of lanes where
/// none is empty.
pub open spec fn find_empty(lanes: Lanes, from: int) -> int
    decreases lanes.len() - from,
{
    if from < 0 || from >= lanes.len() {
        lanes.len() as int
    } else if lanes[from] is None {
        from
    } else {
        find_empty(lanes, from + 1)
    }
}

/// What `find_waiting` finds: the first lane that waits for the commit.
pub proof fn lemma_find_waiting(lanes: Lanes, oid: Seq<char>, from: int)
    requires
        0 <= from <= lanes.len(),
    ensures
        from <= find_waiting(lanes, oid, from) <= lanes.len(),
        find_waiting(lanes, oid, from) < lanes.len() ==> lanes[find_waiting(lanes, oid, from)]
            == Some(oid),
        forall|k: int| from <= k < find_waiting(lanes, oid, from) ==> lanes[k] != Some(oid),
    decreases lanes.len() - from,
{
    if from < lanes.len() && lanes[from] != Some(oid) {
        lemma_find_waiting(lanes, oid, from + 1);
    }
}

/// What `find_empty` finds: the first empty lane.
pub proof fn lemma_find_empty(lanes: Lanes, from: int)
    requires
        0 <= from <= lanes.len(),
    ensures
        from <= find_empty(lanes, from) <= lanes.len(),
        find_empty(lanes, from) < lanes.len() ==> lanes[find_empty(lanes, from)] is None,
        forall|k: int| from <= k < find_empty(lanes, from) ==> lanes[k] is Some,
    decreases lanes.len() - from,
{
    if from < lanes.len() && lanes[from] is Some {
        lemma_find_empty(lanes, from + 1);
    }
}

/// The column of the first empty lane, with a new empty lane added at the
/// end where there is none.
pub open spec fn free_column(lanes: Lanes) -> (Lanes, int) {
    let col = find_empty(lanes, 0);
    if col < lanes.len() {
        (lanes, col)
    } else {
        (lanes.push(None), lanes.len() as int)
    }
}

/// The column of a commit, and the lanes once it has left: the first lane
/// that waits for it, which it frees, or else the first empty lane, or else
/// a new one.
pub open spec fn commit_column(lanes: Lanes, oid: Seq<char>) -> (Lanes, int) {
    let col = find_waiting(lanes, oid, 0);
    if col < lanes.len() {
        (lanes.update(col, None), col)
    } else {
        free_column(lanes)
    }
}

/// The column of a further parent: the first lane that already waits for it,
/// or else the first empty lane, or else a new one, which then waits for it.
pub open spec fn parent_column(lanes: Lanes, parent: Seq<char>) -> (Lanes, int) {
    let col = find_waiting(lanes, parent, 0);
    if col < lanes.len() {
        (lanes, col)
    } else {
        let (with_free, free) = free_column(lanes);
        (with_free.update(free, Some(parent)), free)
    }
}

/// The edge from one column to another. Its colour is that of the lane it
/// leads to.
pub open spec fn edge(from: int, to: int) -> GraphEdgeView {
    GraphEdgeView { from_column: from, to_column: to, color_index: to }
}

/// The lanes and edges once the first `n` parents have their lanes: the first
/// parent goes on in the commit's own column, each further one as
/// `parent_column` says.
pub open spec fn place_parents(lanes: Lanes, column: int, parents: Seq<Seq<char>>, n: int) -> (
    Lanes,
    Seq<GraphEdgeView>,
)
    decreases n,
{
    if n <= 0 || n > parents.len() {
        (lanes, Seq::empty())
    } else if n == 1 {
        (lanes.update(column, Some(parents[0])), seq![edge(column, column)])
    } else {
        let (before, edges) = place_parents(lanes, column, parents, n - 1);
        let (after, to) = parent_column(before, parents[n - 1]);
        (after, edges.push(edge(column, to)))
    }
}

/// A commit with more than one parent is a merge.
pub open spec fn node_type_of(parents: Seq<Seq<char>>) -> GraphNodeType {
    if parents.len() > 1 {
        GraphNodeType::Merge
    } else {
        GraphNodeType::Normal
    }
}

/// The row of one commit and the lanes after it.
pub open spec fn layout_commit(lanes: Lanes, commit: CommitInfoView) -> (Lanes, CommitGraphRowView) {
    let (freed, column) = commit_column(lanes, commit.oid);
    let (after, edges) = place_parents(
        freed,
        column,
        commit.parent_oids,
        commit.parent_oids.len() as int,
    );
    (
        after,
        CommitGraphRowView {
            oid: commit.oid,
            column,
            node_type: node_type_of(commit.parent_oids),
            edges,
        },
    )
}

/// The lanes and rows once the first `n` commits are laid out, starting with
/// no lanes.
pub open spec fn layout(commits: Seq<CommitInfoView>, n: int) -> (Lanes, Seq<CommitGraphRowView>)
    decreases n,
{
    if n <= 0 || n > commits.len() {
        (Seq::empty(), Seq::empty())
    } else {
        let (lanes, rows) = layout(commits, n - 1);
        let (after, row) = layout_commit(lanes, commits[n - 1]);
        (after, rows.push(row))
    }
}

/// The rows of the commit graph for commits in display order.
pub open spec fn graph_rows(commits: Seq<CommitInfoView>) -> Seq<CommitGraphRowView> {
    layout(commits, commits.len() as int).1
}

fn find_waiting_lane(lanes: &Vec<Option<String>>, oid: &String) -> (col: usize)
    ensures
        col == find_waiting(lanes.deep_view(), oid@, 0),
        col <= lanes.len(),
{
    let mut i: usize = 0;
    while i < lanes.len()
        invariant
            i <= lanes.len(),
            find_waiting(lanes.deep_view(), oid@, 0) == find_waiting(lanes.deep_view(), oid@, i as int),
        decreases lanes.len() - i,
    {
        let hit = match &lanes[i] {
            Some(waiting) => *waiting == *oid,
            None => false,
        };
        assert(hit == (lanes.deep_view()[i as int] == Some(oid@)));
        if hit {
            return i;
        }
        i += 1;
    }
    i
}

fn find_empty_lane(lanes: &Vec<Option<String>>) -> (col: usize)
    ensures
        col == find_empty(lanes.deep_view(), 0),
        col <= lanes.len(),
{
    let mut i: usize = 0;
    while i < lanes.len()
        invariant
            i <= lanes.len(),
            find_empty(lanes.deep_view(), 0) == find_empty(lanes.deep_view(), i as int),
        decreases lanes.len() - i,
    {
        assert(lanes@[i as int] is None == lanes.deep_view()[i as int] is None);
        if lanes[i].is_none() {
            return i;
        }
        i += 1;
    }
    i
}

fn take_free_column(lanes: &mut Vec<Option<String>>) -> (col: usize)
    ensures
        (final(lanes).deep_view(), col as int) == free_column(old(lanes).deep_view()),
        col < final(lanes).len(),
        final(lanes)@[col as int] is None,
{
    let col = find_empty_lane(lanes);
    proof {
        lemma_find_empty(lanes.deep_view(), 0);
    }
    if col < lanes.len() {
        assert(lanes@[col as int] is None == lanes.deep_view()[col as int] is None);
        col
    } else {
        lanes.push(None);
        assert(lanes.deep_view() =~= old(lanes).deep_view().push(None));
        col
    }
}

/// Lays out the commit graph for commits in display order: one row for each
/// commit, with its column and an edge to each of its parents.
pub fn build_graph(commits: &Vec<CommitInfo>) -> (rows: Vec<CommitGraphRow>)
    ensures
        rows.deep_view() == graph_rows(commits.deep_view()),
{
    let ghost cv = commits.deep_view();
    let mut lanes: Vec<Option<String>> = Vec::new();
    let mut rows: Vec<CommitGraphRow> = Vec::new();
    let mut n: usize = 0;
    proof {
        assert(lanes.deep_view() =~= Seq::<Option<Seq<char>>>::empty());
        assert(rows.deep_view() =~= Seq::<CommitGraphRowView>::empty());
    }
    while n < commits.len()
        invariant
            n <= commits.len(),
            cv == commits.deep_view(),
            (lanes.deep_view(), rows.deep_view()) == layout(cv, n as int),
        decreases commits.len() - n,
    {
        let commit = &commits[n];
        let ghost lanes0 = lanes.deep_view();
        let ghost rows0 = rows.deep_view();
        let ghost oid = commit.oid@;
        let ghost parents = commit.parent_oids.deep_view();
        assert(cv[n as int] == commit.deep_view());
        let found = find_waiting_lane(&lanes, &commit.oid);
        let column: usize = if found < lanes.len() {
            lanes[found] = None;
            assert(lanes.deep_view() =~= lanes0.update(found as int, None));
            found
        } else {
            take_free_column(&mut lanes)
        };
        assert((lanes.deep_view(), column as int) == commit_column(lanes0, oid));
        let node_type = if commit.parent_oids.len() > 1 {
            GraphNodeType::Merge
        } else {
            GraphNodeType::Normal
        };
        let mut edges: Vec<GraphEdge> = Vec::new();
        let ghost freed = lanes.deep_view();
        let mut i: usize = 0;
        assert(edges.deep_view() =~= Seq::<GraphEdgeView>::empty());
        while i < commit.parent_oids.len()
            invariant
                i <= commit.parent_oids.len(),
                parents == commit.parent_oids.deep_view(),
                column < lanes.len(),
                (lanes.deep_view(), edges.deep_view()) == place_parents(
                    freed,
                    column as int,
                    parents,
                    i as int,
                ),
            decreases commit.parent_oids.len() - i,
        {
            let parent_oid = &commit.parent_oids[i];
            assert(parents[i as int] == parent_oid@);
            let ghost lanes1 = lanes.deep_view();
            let ghost edges1 = edges.deep_view();
            let to_col: usize = if i == 0 {
                lanes[column] = Some(parent_oid.clone());
                assert(lanes.deep_view() =~= lanes1.update(column as int, Some(parent_oid@)));
                column
            } else {
                let existing = find_waiting_lane(&lanes, parent_oid);
                if existing < lanes.len() {
                    existing
                } else {
                    let free = take_free_column(&mut lanes);
                    let ghost with_free = lanes.deep_view();
                    lanes[free] = Some(parent_oid.clone());
                    assert(lanes.deep_view() =~= with_free.update(
                        free as int,
                        Some(parent_oid@),
                    ));
                    free
                }
            };
            let e = GraphEdge { from_column: column, to_column: to_col, color_index: to_col };
            edges.push(e);
            proof {
                assert(edges.deep_view() =~= edges1.push(edge(column as int, to_col as int)));
                if i == 0 {
                    assert(edges1.push(edge(column as int, column as int)) =~= seq![
                        edge(column as int, column as int),
                    ]);
                }
            }
            i += 1;
        }
        let row = CommitGraphRow { oid: commit.oid.clone(), column, node_type, edges };
        rows.push(row);
        proof {
            assert(rows.deep_view() =~= rows0.push(row.deep_view()));
        }
        n += 1;
    }
    rows
}

/// Whether the commits are a linear chain: each has exactly one parent, and
/// the parent of each is the commit that follows it.
pub open spec fn is_linear_chain(commits: Seq<CommitInfoView>) -> bool {
    &&& forall|i: int| 0 <= i < commits.len() ==> (#[trigger] commits[i]).parent_oids.len() == 1
    &&& forall|i: int|
        0 <= i < commits.len() - 1 ==> (#[trigger] commits[i]).parent_oids[0] == commits[i + 1].oid
}

proof fn lemma_linear_chain_prefix(commits: Seq<CommitInfoView>, n: int)
    requires
        is_linear_chain(commits),
        1 <= n <= commits.len(),
    ensures
        layout(commits, n).0 == seq![Some(commits[n - 1].parent_oids[0])],
        layout(commits, n).1.len() == n,
        forall|i: int|
            0 <= i < n ==> {
                &&& (#[trigger] layout(commits, n).1[i]).column == 0
                &&& layout(commits, n).1[i].edges == seq![edge(0, 0)]
                &&& layout(commits, n).1[i].node_type == GraphNodeType::Normal
                &&& layout(commits, n).1[i].oid == commits[i].oid
            },
    decreases n,
{
    let commit = commits[n - 1];
    let parent = commit.parent_oids[0];
    assert(commit.parent_oids.len() == 1);
    if n == 1 {
        let empty: Lanes = Seq::empty();
        assert(layout(commits, 0) == (empty, Seq::<CommitGraphRowView>::empty()));
        assert(find_waiting(empty, commit.oid, 0) == 0);
        assert(find_empty(empty, 0) == 0);
        assert(commit_column(empty, commit.oid) == (empty.push(None), 0int));
        assert(empty.push(None).update(0, Some(parent)) =~= seq![Some(parent)]);
        assert(layout(commits, 1).1 =~= seq![layout_commit(empty, commit).1]);
    } else {
        lemma_linear_chain_prefix(commits, n - 1);
        let (lanes, rows) = layout(commits, n - 1);
        assert(commits[n - 2].parent_oids[0] == commit.oid);
        assert(lanes == seq![Some(commit.oid)]);
        assert(find_waiting(lanes, commit.oid, 0) == 0);
        assert(commit_column(lanes, commit.oid) == (lanes.update(0, None), 0int));
        assert(lanes.update(0, None).update(0, Some(parent)) =~= seq![Some(parent)]);
        let row = layout_commit(lanes, commit).1;
        assert(layout(commits, n).1 == rows.push(row));
        assert forall|i: int| 0 <= i < n implies {
            &&& (#[trigger] layout(commits, n).1[i]).column == 0
            &&& layout(commits, n).1[i].edges == seq![edge(0, 0)]
            &&& layout(commits, n).1[i].node_type == GraphNodeType::Normal
            &&& layout(commits, n).1[i].oid == commits[i].oid
        } by {
            if i < n - 1 {
                assert(rows.push(row)[i] == rows[i]);
            }
        }
    }
}

/// In a linear chain every commit stands in column 0 and has one edge, which
/// stays in column 0.
pub proof fn lemma_linear_chain_reuses_lane(commits: Seq<CommitInfoView>)
    requires
        is_linear_chain(commits),
    ensures
        graph_rows(commits).len() == commits.len(),
        forall|i: int|
            0 <= i < commits.len() ==> {
                &&& (#[trigger] graph_rows(commits)[i]).column == 0
                &&& graph_rows(commits)[i].edges == seq![edge(0, 0)]
                &&& graph_rows(commits)[i].node_type == GraphNodeType::Normal
            },
{
    if commits.len() > 0 {
        lemma_linear_chain_prefix(commits, commits.len() as int);
    }
}

/// Whether some lane waits for `oid`.
pub open spec fn is_waited_for(lanes: Lanes, oid: Seq<char>) -> bool {
    exists|k: int| 0 <= k < lanes.len() && lanes[k] == Some(oid)
}

/// A commit with two different parents, for neither of which a lane waits,
/// is a merge with two edges that lead to two different columns: the first
/// stays in the commit's own column, the second leaves it.
pub proof fn lemma_merge_branches(lanes: Lanes, commit: CommitInfoView)
    requires
        commit.parent_oids.len() == 2,
        commit.parent_oids[0] != commit.parent_oids[1],
        !is_waited_for(lanes, commit.parent_oids[0]),
        !is_waited_for(lanes, commit.parent_oids[1]),
    ensures
        layout_commit(lanes, commit).1.node_type == GraphNodeType::Merge,
        layout_commit(lanes, commit).1.edges.len() == 2,
        layout_commit(lanes, commit).1.edges[0] == edge(
            layout_commit(lanes, commit).1.column,
            layout_commit(lanes, commit).1.column,
        ),
        layout_commit(lanes, commit).1.edges[1].from_column == layout_commit(
            lanes,
            commit,
        ).1.column,
        layout_commit(lanes, commit).1.edges[0].to_column != layout_commit(
            lanes,
            commit,
        ).1.edges[1].to_column,
{
    let p0 = commit.parent_oids[0];
    let p1 = commit.parent_oids[1];
    let (freed, column) = commit_column(lanes, commit.oid);
    lemma_find_waiting(lanes, commit.oid, 0);
    lemma_find_empty(lanes, 0);
    assert(0 <= column < freed.len());
    assert forall|k: int| 0 <= k < freed.len() implies freed[k] != Some(p1) by {
        if k < lanes.len() && freed[k] == Some(p1) {
            assert(lanes[k] == Some(p1));
        }
    }
    let first = freed.update(column, Some(p0));
    assert(place_parents(freed, column, commit.parent_oids, 1) == (
        first,
        seq![edge(column, column)],
    ));
    lemma_find_waiting(first, p1, 0);
    assert(find_waiting(first, p1, 0) == first.len()) by {
        let w = find_waiting(first, p1, 0);
        if w < first.len() {
            assert(first[w] == Some(p1));
            if w == column {
            } else {
                assert(freed[w] == Some(p1));
            }
        }
    }
    lemma_find_empty(first, 0);
    let (with_free, free) = free_column(first);
    assert(free != column);
}

proof fn lemma_place_parents_edges(lanes: Lanes, column: int, parents: Seq<Seq<char>>, n: int)
    requires
        0 <= n <= parents.len(),
    ensures
        place_parents(lanes, column, parents, n).1.len() == n,
        forall|i: int|
            0 <= i < n ==> (#[trigger] place_parents(lanes, column, parents, n).1[i]).from_column
                == column && place_parents(lanes, column, parents, n).1[i].color_index
                == place_parents(lanes, column, parents, n).1[i].to_column,
    decreases n,
{
    if n > 1 {
        lemma_place_parents_edges(lanes, column, parents, n - 1);
    }
}

proof fn lemma_layout_rows(commits: Seq<CommitInfoView>, n: int)
    requires
        0 <= n <= commits.len(),
    ensures
        layout(commits, n).1.len() == n,
        forall|i: int|
            0 <= i < n ==> {
                let row = #[trigger] layout(commits, n).1[i];
                &&& row.oid == commits[i].oid
                &&& row.node_type == node_type_of(commits[i].parent_oids)
                &&& row.edges.len() == commits[i].parent_oids.len()
                &&& forall|k: int|
                    0 <= k < row.edges.len() ==> (#[trigger] row.edges[k]).from_column
                        == row.column && row.edges[k].color_index == row.edges[k].to_column
            },
    decreases n,
{
    if n > 0 {
        lemma_layout_rows(commits, n - 1);
        let (lanes, rows) = layout(commits, n - 1);
        let commit = commits[n - 1];
        let (freed, column) = commit_column(lanes, commit.oid);
        lemma_place_parents_edges(freed, column, commit.parent_oids, commit.parent_oids.len() as int);
        let row = layout_commit(lanes, commit).1;
        assert(layout(commits, n).1 == rows.push(row));
        assert forall|i: int| 0 <= i < n implies {
            let r = #[trigger] layout(commits, n).1[i];
            &&& r.oid == commits[i].oid
            &&& r.node_type == node_type_of(commits[i].parent_oids)
            &&& r.edges.len() == commits[i].parent_oids.len()
            &&& forall|k: int|
                0 <= k < r.edges.len() ==> (#[trigger] r.edges[k]).from_column == r.column
                    && r.edges[k].color_index == r.edges[k].to_column
        } by {
            if i < n - 1 {
                assert(rows.push(row)[i] == rows[i]);
            }
        }
    }
}

/// The graph has one row for each commit, in order: the row is for that
/// commit, it is a merge exactly where the commit has more than one parent,
/// and it has one edge for each parent, from the commit's own column, in the
/// colour of the lane it leads to.
pub proof fn lemma_graph_rows(commits: Seq<CommitInfoView>)
    ensures
        graph_rows(commits).len() == commits.len(),
        forall|i: int|
            0 <= i < commits.len() ==> {
                let row = #[trigger] graph_rows(commits)[i];
                &&& row.oid == commits[i].oid
                &&& (row.node_type == GraphNodeType::Merge) == (commits[i].parent_oids.len() > 1)
                &&& row.edges.len() == commits[i].parent_oids.len()
                &&& forall|k: int|
                    0 <= k < row.edges.len() ==> (#[trigger] row.edges[k]).from_column
                        == row.column && row.edges[k].color_index == row.edges[k].to_column
            },
{
    lemma_layout_rows(commits, commits.len() as int);
}

} // verus!
