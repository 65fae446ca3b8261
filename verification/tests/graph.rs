use rocket_git::git::graph::build_graph;
use rocket_git::git::history::get_commit_log;
use rocket_git::git::types::{CommitInfo, GraphEdge, GraphNodeType};

fn commit(oid: &str, parents: &[&str]) -> CommitInfo {
    CommitInfo {
        oid: oid.to_string(),
        short_oid: oid.to_string(),
        message: String::new(),
        body: String::new(),
        author_name: String::new(),
        author_email: String::new(),
        author_date: 0,
        parent_oids: parents.iter().map(|p| p.to_string()).collect(),
        refs: Vec::new(),
    }
}

fn edge(from: usize, to: usize) -> GraphEdge {
    GraphEdge { from_column: from, to_column: to, color_index: to }
}

#[test]
fn linear_chain_stays_in_lane_zero() {
    let commits = vec![commit("c3", &["c2"]), commit("c2", &["c1"]), commit("c1", &["c0"])];
    let rows = build_graph(&commits);
    assert_eq!(rows.len(), 3);
    for (row, c) in rows.iter().zip(&commits) {
        assert_eq!(row.oid, c.oid);
        assert_eq!(row.column, 0);
        assert_eq!(row.node_type, GraphNodeType::Normal);
        assert_eq!(row.edges, vec![edge(0, 0)]);
    }
}

#[test]
fn merge_commit_branches_into_two_lanes() {
    let rows = build_graph(&[commit("m", &["a", "b"])].to_vec());
    assert_eq!(rows[0].column, 0);
    assert_eq!(rows[0].node_type, GraphNodeType::Merge);
    assert_eq!(rows[0].edges, vec![edge(0, 0), edge(0, 1)]);
}

#[test]
fn merged_branch_is_found_in_its_lane_and_frees_it() {
    let commits = vec![
        commit("m", &["a", "b"]),
        commit("b", &["base"]),
        commit("a", &["base"]),
        commit("base", &[]),
        commit("other", &[]),
    ];
    let rows = build_graph(&commits);
    assert_eq!(rows[1].column, 1);
    assert_eq!(rows[1].edges, vec![edge(1, 1)]);
    assert_eq!(rows[2].column, 0);
    assert_eq!(rows[2].edges, vec![edge(0, 0)]);
    assert_eq!(rows[3].column, 0);
    assert!(rows[3].edges.is_empty());
    assert_eq!(rows[3].node_type, GraphNodeType::Normal);
    assert_eq!(rows[4].column, 0);
}

#[test]
fn second_parent_joins_a_lane_that_waits_for_it() {
    let commits = vec![commit("x", &["p"]), commit("m", &["q", "p"])];
    let rows = build_graph(&commits);
    assert_eq!(rows[0].column, 0);
    assert_eq!(rows[1].column, 1);
    assert_eq!(rows[1].edges, vec![edge(1, 1), edge(1, 0)]);
}

#[test]
fn graph_of_no_commits_is_empty() {
    assert!(build_graph(&Vec::new()).is_empty());
}

#[test]
fn commit_log_lays_out_its_commits() {
    let log = get_commit_log(vec![commit("b", &["a"]), commit("a", &[])]);
    assert_eq!(log.commits.len(), 2);
    assert_eq!(log.graph.len(), 2);
    assert_eq!(log.graph[1].oid, "a");
    assert_eq!(log.graph[1].column, 0);
}
