use rocket_git::git::blame::{get_blame, BlameHunk};
use rocket_git::git::history::{
    commit_to_info, contains_ignoring_case, matches_filter, needs_path_check, short_oid,
    todo_entry, walk_step, WalkStep,
};
use rocket_git::git::index::{
    collect_conflict_paths, commit_file_change, entry_stage, find_stage_entry,
    get_conflict_file, resolve_conflict, stages_needed, DeltaKind, IndexEntry,
};
use rocket_git::git::oid::{is_commit_oid, parse_commit_oid};
use rocket_git::git::refs::{
    branch_info, branch_ref, branch_ref_kind, build_ref_map, push_refspec, tag_info, tag_ref,
    RefTip, TagAnnotation,
};
use rocket_git::git::repo::{
    commit, commit_stats, create_tag, current_branch, open_failure, remote_info, stage, unstage,
    CommitPlan, StageAction, UnstageAction,
};
use rocket_git::git::types::{
    CommitFileStatus, CommitRefKind, ConflictResolution, LogFilter, RebaseAction,
};

const OID: &str = "0123456789abcdef0123456789abcdef01234567";

fn no_filter() -> LogFilter {
    LogFilter { author: None, since: None, until: None, message: None, path: None }
}

#[test]
fn short_oid_is_the_first_seven_characters() {
    assert_eq!(short_oid(OID), "0123456");
    assert_eq!(short_oid("abc"), "abc");
    assert_eq!(short_oid(""), "");
}

#[test]
fn commit_info_parts_subject_and_body() {
    let info = commit_to_info(
        OID,
        "subject line\n\n  body text\nmore\n\n",
        "Alice",
        "a@example.com",
        42,
        vec!["p1".to_string()],
        Vec::new(),
    );
    assert_eq!(info.oid, OID);
    assert_eq!(info.short_oid, "0123456");
    assert_eq!(info.message, "subject line");
    assert_eq!(info.body, "body text\nmore");
    assert_eq!(info.author_name, "Alice");
    assert_eq!(info.author_email, "a@example.com");
    assert_eq!(info.author_date, 42);
    assert_eq!(info.parent_oids, vec!["p1"]);
    let info = commit_to_info(OID, "only subject", "", "", 0, Vec::new(), Vec::new());
    assert_eq!(info.message, "only subject");
    assert_eq!(info.body, "");
}

#[test]
fn filter_matches_author_and_message_in_any_case() {
    let filter = LogFilter { author: Some("ALI".to_string()), message: Some("fix".to_string()), ..no_filter() };
    assert!(matches_filter("Alice", 0, "FIX: bug", false, &filter));
    assert!(!matches_filter("Bob", 0, "FIX: bug", false, &filter));
    assert!(!matches_filter("Alice", 0, "feat: x", false, &filter));
    assert!(contains_ignoring_case("Hello World", "LO W"));
    assert!(!contains_ignoring_case("Hello", "xyz"));
}

#[test]
fn filter_bounds_belong_to_the_range() {
    let filter = LogFilter { since: Some(10), until: Some(20), ..no_filter() };
    assert!(matches_filter("a", 10, "m", false, &filter));
    assert!(matches_filter("a", 20, "m", false, &filter));
    assert!(!matches_filter("a", 9, "m", false, &filter));
    assert!(!matches_filter("a", 21, "m", false, &filter));
}

#[test]
fn filter_with_path_needs_the_commit_to_touch_it() {
    let filter = LogFilter { path: Some("src".to_string()), ..no_filter() };
    assert!(needs_path_check(&filter));
    assert!(!needs_path_check(&no_filter()));
    assert!(matches_filter("a", 0, "m", true, &filter));
    assert!(!matches_filter("a", 0, "m", false, &filter));
    assert!(matches_filter("a", 0, "m", false, &no_filter()));
}

#[test]
fn walk_skips_then_takes_up_to_the_limit() {
    assert_eq!(walk_step(false, 0, 0, 0, 10), WalkStep::Pass);
    assert_eq!(walk_step(true, 0, 2, 0, 10), WalkStep::Skip);
    assert_eq!(walk_step(true, 2, 2, 0, 10), WalkStep::Take);
    assert_eq!(walk_step(true, 2, 2, 8, 10), WalkStep::Take);
    assert_eq!(walk_step(true, 2, 2, 9, 10), WalkStep::TakeLast);
    assert_eq!(walk_step(true, 0, 0, 0, 1), WalkStep::TakeLast);
    assert_eq!(walk_step(true, 0, 0, 0, 0), WalkStep::TakeLast);
}

#[test]
fn todo_entries_start_as_picks() {
    let e = todo_entry(OID, "summary", "Alice");
    assert_eq!(e.action, RebaseAction::Pick);
    assert_eq!(e.oid, OID);
    assert_eq!(e.short_oid, "0123456");
    assert_eq!(e.message, "summary");
    assert_eq!(e.author_name, "Alice");
}

fn hunk(start: usize, n: usize, oid: &str) -> BlameHunk {
    BlameHunk {
        start_line: start,
        num_lines: n,
        commit_oid: oid.to_string(),
        author_name: "Ann".to_string(),
        author_date: 7,
    }
}

#[test]
fn blame_spreads_runs_into_lines() {
    let hunks = vec![hunk(1, 2, "aaaaaaaaaa"), hunk(3, 1, "aaaaaaaaaa"), hunk(4, 2, "bbbbbbbbbb")];
    let r = get_blame("f.rs", &hunks, "l1\nl2\nl3\nl4\n");
    assert_eq!(r.path, "f.rs");
    let got: Vec<_> = r
        .lines
        .iter()
        .map(|l| (l.line_number, l.content.as_str(), l.commit_short_oid.as_str(), l.is_block_start))
        .collect();
    assert_eq!(
        got,
        vec![
            (1, "l1", "aaaaaaa", true),
            (2, "l2", "aaaaaaa", false),
            (3, "l3", "aaaaaaa", false),
            (4, "l4", "bbbbbbb", true),
            (5, "", "bbbbbbb", false),
        ]
    );
    assert_eq!(r.lines[0].author_name, "Ann");
    assert_eq!(r.lines[0].author_date, 7);
    assert_eq!(r.lines[3].commit_oid, "bbbbbbbbbb");
}

#[test]
fn blame_of_line_zero_has_no_text() {
    let r = get_blame("f", &vec![hunk(0, 1, "cccccccc")], "first\n");
    assert_eq!(r.lines.len(), 1);
    assert_eq!(r.lines[0].line_number, 0);
    assert_eq!(r.lines[0].content, "");
}

fn tip(name: &str, oid: &str, kind: CommitRefKind) -> RefTip {
    RefTip { name: name.to_string(), oid: oid.to_string(), kind }
}

#[test]
fn ref_map_puts_head_first() {
    let tips = vec![
        tip("main", "c1", CommitRefKind::LocalBranch),
        tip("origin/main", "c1", CommitRefKind::RemoteBranch),
        tip("dev", "c2", CommitRefKind::LocalBranch),
        tip("v1", "c1", CommitRefKind::Tag),
    ];
    let map = build_ref_map(Some("c1"), &tips);
    let names: Vec<_> = map.get("c1").iter().map(|r| (r.name.clone(), r.kind)).collect();
    assert_eq!(
        names,
        vec![
            ("HEAD".to_string(), CommitRefKind::Head),
            ("main".to_string(), CommitRefKind::LocalBranch),
            ("origin/main".to_string(), CommitRefKind::RemoteBranch),
            ("v1".to_string(), CommitRefKind::Tag),
        ]
    );
    assert_eq!(map.get("c2").len(), 1);
    assert!(map.get("c3").is_empty());
    let map = build_ref_map(Some("c9"), &tips);
    assert_eq!(map.get("c9").len(), 1);
    assert_eq!(map.get("c1").len(), 3);
    let map = build_ref_map(None, &tips);
    assert_eq!(map.get("c1")[0].name, "main");
    assert_eq!(branch_ref_kind(true), CommitRefKind::RemoteBranch);
    assert_eq!(branch_ref_kind(false), CommitRefKind::LocalBranch);
}

#[test]
fn branch_info_names_the_remote_of_a_remote_branch() {
    let b = branch_info("origin/feature/x", false, true, None, Some((3, 4)));
    assert_eq!(b.remote_name, Some("origin".to_string()));
    assert_eq!((b.ahead_count, b.behind_count), (0, 0));
    let b = branch_info("main", true, false, Some("origin/main".to_string()), Some((3, 4)));
    assert_eq!(b.remote_name, None);
    assert_eq!(b.upstream, Some("origin/main".to_string()));
    assert_eq!((b.ahead_count, b.behind_count), (3, 4));
    assert!(b.is_head);
    let b = branch_info("main", false, false, None, None);
    assert_eq!((b.ahead_count, b.behind_count), (0, 0));
}

#[test]
fn tags_are_annotated_when_they_carry_an_annotation() {
    let t = tag_info("v1", OID, None);
    assert!(!t.is_annotated);
    assert_eq!(t.target_short_oid, "0123456");
    assert_eq!(t.tagger_name, None);
    let a = TagAnnotation {
        tagger_name: Some("Ann".to_string()),
        tagger_date: Some(5),
        message: Some("release".to_string()),
    };
    let t = tag_info("v2", OID, Some(a));
    assert!(t.is_annotated);
    assert_eq!(t.name, "v2");
    assert_eq!(t.tagger_name, Some("Ann".to_string()));
    assert_eq!(t.tagger_date, Some(5));
    assert_eq!(t.message, Some("release".to_string()));
    assert!(create_tag(Some("m")));
    assert!(!create_tag(None));
}

#[test]
fn reference_names_are_spelled_out() {
    assert_eq!(branch_ref("main"), "refs/heads/main");
    assert_eq!(tag_ref("v1"), "refs/tags/v1");
    assert_eq!(push_refspec("dev"), "refs/heads/dev:refs/heads/dev");
}

#[test]
fn index_stage_is_read_from_the_flags() {
    assert_eq!(entry_stage(0x0000), 0);
    assert_eq!(entry_stage(0x1005), 1);
    assert_eq!(entry_stage(0x2fff), 2);
    assert_eq!(entry_stage(0xffff), 3);
    let entries = vec![
        IndexEntry { path: "f".to_string(), flags: 0x1000 },
        IndexEntry { path: "g".to_string(), flags: 0x2000 },
        IndexEntry { path: "f".to_string(), flags: 0x2000 },
        IndexEntry { path: "f".to_string(), flags: 0x3000 },
    ];
    assert_eq!(find_stage_entry(&entries, "f", 2).unwrap(), 2);
    assert_eq!(find_stage_entry(&entries, "f", 3).unwrap(), 3);
    let err = find_stage_entry(&entries, "g", 3).unwrap_err();
    assert_eq!(err.message(), "failed to resolve conflict: stage 3 entry not found for g");
}

#[test]
fn whole_file_resolution_takes_the_chosen_side() {
    assert_eq!(resolve_conflict(&ConflictResolution::Ours, "o", "t"), "o");
    assert_eq!(resolve_conflict(&ConflictResolution::Theirs, "o", "t"), "t");
    assert_eq!(resolve_conflict(&ConflictResolution::Both, "o\n", "t\n"), "o\nt\n");
    assert_eq!(resolve_conflict(&ConflictResolution::Manual("m".to_string()), "o", "t"), "m");
    assert_eq!(stages_needed(&ConflictResolution::Ours), (true, false));
    assert_eq!(stages_needed(&ConflictResolution::Both), (true, true));
    assert_eq!(stages_needed(&ConflictResolution::Manual(String::new())), (false, false));
}

#[test]
fn conflict_paths_are_listed_once() {
    let candidates = vec![
        Some("a".to_string()),
        None,
        Some("b".to_string()),
        Some("a".to_string()),
        Some("c".to_string()),
        Some("b".to_string()),
    ];
    assert_eq!(collect_conflict_paths(&candidates), vec!["a", "b", "c"]);
    let file = get_conflict_file("f".to_string(), "<<<<<<< H\na\n=======\nb\n>>>>>>> T\n");
    assert_eq!(file.conflict_count, 1);
    assert_eq!(file.conflicts[0].ours, "a\n");
}

#[test]
fn file_changes_take_status_and_counts() {
    let c = commit_file_change("f", DeltaKind::Added, Some((3, 1)));
    assert_eq!(c.status, CommitFileStatus::Added);
    assert_eq!((c.additions, c.deletions), (3, 1));
    assert_eq!(commit_file_change("f", DeltaKind::Other, None).status, CommitFileStatus::Modified);
    assert_eq!(commit_file_change("f", DeltaKind::Renamed, None).additions, 0);
    assert_eq!(commit_file_change("f", DeltaKind::Deleted, None).status, CommitFileStatus::Deleted);
    let s = commit_stats(5, 6, 7);
    assert_eq!((s.additions, s.deletions, s.files_changed), (5, 6, 7));
}

#[test]
fn everyday_decisions() {
    assert_eq!(stage(true), StageAction::Add);
    assert_eq!(stage(false), StageAction::Remove);
    assert_eq!(unstage(true), UnstageAction::ResetToHead);
    assert_eq!(unstage(false), UnstageAction::RemoveFromIndex);
    assert_eq!(commit(true, true), CommitPlan::Amend);
    assert_eq!(commit(false, true), CommitPlan::OnHead);
    assert_eq!(commit(false, false), CommitPlan::Initial);
    assert_eq!(current_branch(Some("main")), "main");
    assert_eq!(current_branch(None), "HEAD");
    assert_eq!(open_failure(true, "/x", "c").message(), "repository not found: /x");
    assert_eq!(open_failure(false, "/x", "c").message(), "failed to open repository: c");
    assert_eq!(remote_info("origin", None).url, "");
    assert_eq!(remote_info("origin", Some("u")).url, "u");
}

#[test]
fn commit_ids_are_read_in_full() {
    assert_eq!(parse_commit_oid(OID).unwrap(), OID);
    assert_eq!(parse_commit_oid("ABCdef1").unwrap(), "abcdef1000000000000000000000000000000000");
    assert_eq!(parse_commit_oid("0").unwrap(), "0".repeat(40));
    let err = parse_commit_oid("xyz").unwrap_err();
    assert_eq!(err.message(), "commit not found: xyz");
    assert!(parse_commit_oid("").is_err());
    assert!(parse_commit_oid(&"a".repeat(41)).is_err());
    assert!(parse_commit_oid("abc ").is_err());
    assert!(is_commit_oid("deadbeef"));
    assert!(!is_commit_oid("not-an-oid"));
}
