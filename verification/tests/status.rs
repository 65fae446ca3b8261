use rocket_git::git::diff_parse::{parse_diff_to_file_diffs, DiffEvent, HunkHeader};
use rocket_git::git::status::{
    index_status_to_kind, status, wt_status_to_kind, StatusEntry, StatusFlags,
};
use rocket_git::git::types::{DiffLineKind, DiffOptions, FileStatusKind, StagingState};

const NONE: StatusFlags = StatusFlags {
    index_new: false,
    index_modified: false,
    index_deleted: false,
    index_renamed: false,
    index_typechange: false,
    wt_new: false,
    wt_modified: false,
    wt_deleted: false,
    wt_renamed: false,
    wt_typechange: false,
    conflicted: false,
};

fn entry(path: &str, flags: StatusFlags) -> StatusEntry {
    StatusEntry { path: path.to_string(), flags }
}

#[test]
fn status_of_nothing_is_empty() {
    assert!(status(&Vec::new()).files.is_empty());
    assert!(status(&vec![entry("clean", NONE)]).files.is_empty());
}

#[test]
fn status_lists_staged_before_unstaged() {
    let flags = StatusFlags { index_modified: true, wt_deleted: true, ..NONE };
    let r = status(&vec![entry("a.txt", flags), entry("new.txt", StatusFlags { wt_new: true, ..NONE })]);
    let got: Vec<_> = r.files.iter().map(|f| (f.path.as_str(), f.kind, f.staging)).collect();
    assert_eq!(
        got,
        vec![
            ("a.txt", FileStatusKind::Modified, StagingState::Staged),
            ("a.txt", FileStatusKind::Deleted, StagingState::Unstaged),
            ("new.txt", FileStatusKind::Untracked, StagingState::Unstaged),
        ]
    );
}

#[test]
fn conflicted_path_has_one_entry() {
    let flags = StatusFlags { conflicted: true, index_modified: true, wt_modified: true, ..NONE };
    let r = status(&vec![entry("c.txt", flags)]);
    assert_eq!(r.files.len(), 1);
    assert_eq!(r.files[0].kind, FileStatusKind::Conflicted);
    assert_eq!(r.files[0].staging, StagingState::Unstaged);
}

#[test]
fn kinds_are_found_in_order() {
    assert_eq!(index_status_to_kind(StatusFlags { index_new: true, index_modified: true, ..NONE }), FileStatusKind::Untracked);
    assert_eq!(index_status_to_kind(StatusFlags { index_deleted: true, index_renamed: true, ..NONE }), FileStatusKind::Deleted);
    assert_eq!(index_status_to_kind(StatusFlags { index_renamed: true, ..NONE }), FileStatusKind::Renamed);
    assert_eq!(index_status_to_kind(StatusFlags { index_typechange: true, ..NONE }), FileStatusKind::Typechange);
    assert_eq!(index_status_to_kind(NONE), FileStatusKind::Typechange);
    assert_eq!(wt_status_to_kind(StatusFlags { wt_modified: true, wt_renamed: true, ..NONE }), FileStatusKind::Modified);
    assert_eq!(wt_status_to_kind(StatusFlags { wt_renamed: true, ..NONE }), FileStatusKind::Renamed);
    assert_eq!(wt_status_to_kind(StatusFlags { index_new: true, ..NONE }), FileStatusKind::Typechange);
}

#[test]
fn default_diff_options_have_three_context_lines() {
    let options = DiffOptions::default();
    assert_eq!(options.context_lines, 3);
    assert!(!options.staged);
}

fn event(path: &str, hunk: Option<&str>, origin: char, content: &str) -> DiffEvent {
    DiffEvent {
        old_path: Some(path.to_string()),
        new_path: Some(path.to_string()),
        hunk: hunk.map(|h| HunkHeader {
            header: h.to_string(),
            old_start: 1,
            old_lines: 2,
            new_start: 1,
            new_lines: 3,
        }),
        origin,
        content: content.to_string(),
        old_lineno: Some(1),
        new_lineno: None,
    }
}

#[test]
fn diff_events_build_files_hunks_and_lines() {
    let events = vec![
        event("a", None, 'F', "diff --git a/a b/a\n"),
        event("a", Some("@@ -1,2 +1,3 @@\n"), 'H', "@@ -1,2 +1,3 @@\n"),
        event("a", Some("@@ -1,2 +1,3 @@\n"), ' ', "ctx\n"),
        event("a", Some("@@ -1,2 +1,3 @@\n"), '-', "old\n"),
        event("a", Some("@@ -1,2 +1,3 @@\n"), '+', "new\n"),
        event("a", Some("@@ -9,1 +9,1 @@\n"), '>', "more\n"),
        event("b", Some("@@ -1,2 +1,3 @@\n"), '<', "gone\n"),
        event("b", Some("@@ -1,2 +1,3 @@\n"), '=', "same\n"),
    ];
    let diffs = parse_diff_to_file_diffs(&events);
    assert_eq!(diffs.len(), 2);
    assert_eq!(diffs[0].hunks.len(), 2);
    let kinds: Vec<_> = diffs[0].hunks[0].lines.iter().map(|l| l.kind).collect();
    assert_eq!(kinds, vec![DiffLineKind::Context, DiffLineKind::Deletion, DiffLineKind::Addition]);
    assert_eq!(diffs[0].hunks[0].old_lines, 2);
    assert_eq!(diffs[0].hunks[0].lines[1].content, "old\n");
    assert_eq!(diffs[0].hunks[0].lines[1].old_lineno, Some(1));
    assert!(diffs[0].hunks[0].lines[1].word_diff.is_none());
    assert_eq!(diffs[0].hunks[1].lines[0].kind, DiffLineKind::Addition);
    assert_eq!(diffs[1].new_path, Some("b".to_string()));
    let kinds: Vec<_> = diffs[1].hunks[0].lines.iter().map(|l| l.kind).collect();
    assert_eq!(kinds, vec![DiffLineKind::Deletion, DiffLineKind::Context]);
}

#[test]
fn diff_event_without_a_hunk_is_dropped() {
    let diffs = parse_diff_to_file_diffs(&vec![event("a", None, '+', "binary\n")]);
    assert_eq!(diffs.len(), 1);
    assert!(diffs[0].hunks.is_empty());
}
