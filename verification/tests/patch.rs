use rocket_git::git::apply::{apply_arguments, reads_staged_diff, run_git_apply, PatchAction};
use rocket_git::git::error::GitError;
use rocket_git::git::patch::{generate_hunk_patch, generate_line_patch};
use rocket_git::git::types::{
    DiffHunk, DiffLine, DiffLineKind, FileDiff, HunkIdentifier, LineRange,
};

fn line(kind: DiffLineKind, content: &str) -> DiffLine {
    DiffLine { kind, content: content.to_string(), old_lineno: None, new_lineno: None, word_diff: None }
}

fn hunk(old: (u32, u32), new: (u32, u32), lines: Vec<DiffLine>) -> DiffHunk {
    DiffHunk {
        header: format!("@@ -{},{} +{},{} @@", old.0, old.1, new.0, new.1),
        old_start: old.0,
        old_lines: old.1,
        new_start: new.0,
        new_lines: new.1,
        lines,
    }
}

fn file(hunks: Vec<DiffHunk>) -> Vec<FileDiff> {
    vec![FileDiff { old_path: Some("f.txt".to_string()), new_path: Some("f.txt".to_string()), hunks }]
}

fn id(old: (u32, u32), new: (u32, u32)) -> HunkIdentifier {
    HunkIdentifier { old_start: old.0, old_lines: old.1, new_start: new.0, new_lines: new.1 }
}

fn mixed_hunk() -> DiffHunk {
    hunk(
        (10, 3),
        (10, 5),
        vec![
            line(DiffLineKind::Context, "c1\n"),
            line(DiffLineKind::Deletion, "d1\n"),
            line(DiffLineKind::Addition, "a1\n"),
            line(DiffLineKind::Addition, "a2\n"),
            line(DiffLineKind::Addition, "a3\n"),
            line(DiffLineKind::Context, "c2\n"),
        ],
    )
}

#[test]
fn hunk_patch_is_exact_unified_diff() {
    let diffs = file(vec![hunk(
        (5, 3),
        (5, 4),
        vec![
            line(DiffLineKind::Context, "ctx\n"),
            line(DiffLineKind::Deletion, "old\n"),
            line(DiffLineKind::Addition, "new\n"),
        ],
    )]);
    let patch = generate_hunk_patch("f.txt", &diffs, &id((5, 3), (5, 4))).unwrap();
    assert_eq!(
        patch,
        "diff --git a/f.txt b/f.txt\n--- a/f.txt\n+++ b/f.txt\n@@ -5,3 +5,4 @@\n ctx\n-old\n+new\n"
    );
}

#[test]
fn hunk_patch_marks_a_missing_final_newline() {
    let diffs = file(vec![hunk(
        (1, 1),
        (1, 1),
        vec![line(DiffLineKind::Deletion, "old\n"), line(DiffLineKind::Addition, "new")],
    )]);
    let patch = generate_hunk_patch("f.txt", &diffs, &id((1, 1), (1, 1))).unwrap();
    assert!(patch.ends_with("@@ -1,1 +1,1 @@\n-old\n+new\n\\ No newline at end of file\n"));
}

#[test]
fn hunk_patch_skips_header_lines() {
    let diffs = file(vec![hunk(
        (1, 1),
        (1, 1),
        vec![
            line(DiffLineKind::HunkHeader, "@@ -1 +1 @@\n"),
            line(DiffLineKind::FileHeader, "--- a/f.txt\n"),
            line(DiffLineKind::Context, "ctx\n"),
        ],
    )]);
    let patch = generate_hunk_patch("f.txt", &diffs, &id((1, 1), (1, 1))).unwrap();
    assert!(patch.ends_with("@@ -1,1 +1,1 @@\n ctx\n"));
}

#[test]
fn hunk_patch_picks_the_matching_hunk() {
    let diffs = file(vec![
        hunk((1, 1), (1, 1), vec![line(DiffLineKind::Context, "first\n")]),
        hunk((20, 1), (20, 1), vec![line(DiffLineKind::Context, "second\n")]),
    ]);
    let patch = generate_hunk_patch("f.txt", &diffs, &id((20, 1), (20, 1))).unwrap();
    assert!(patch.ends_with("@@ -20,1 +20,1 @@\n second\n"));
}

#[test]
fn hunk_patch_fails_when_no_hunk_matches() {
    let diffs = file(vec![mixed_hunk()]);
    let err = generate_hunk_patch("f.txt", &diffs, &id((10, 3), (10, 6))).unwrap_err();
    assert!(matches!(&err, GitError::DiffFailed(m) if m == "hunk not found"));
    assert_eq!(err.message(), "failed to get diff: hunk not found");
}

#[test]
fn patches_fail_without_a_diff() {
    let diffs: Vec<FileDiff> = Vec::new();
    let err = generate_hunk_patch("f.txt", &diffs, &id((1, 1), (1, 1))).unwrap_err();
    assert!(matches!(&err, GitError::DiffFailed(m) if m == "no diff found for path"));
    let range = LineRange { hunk: id((1, 1), (1, 1)), line_indices: vec![0] };
    let err = generate_line_patch("f.txt", &diffs, &range).unwrap_err();
    assert!(matches!(&err, GitError::DiffFailed(m) if m == "no diff found for path"));
}

#[test]
fn line_patch_counts_what_it_emits() {
    let diffs = file(vec![mixed_hunk()]);
    let range = LineRange { hunk: id((10, 3), (10, 5)), line_indices: vec![2, 4] };
    let patch = generate_line_patch("f.txt", &diffs, &range).unwrap();
    assert_eq!(
        patch,
        "diff --git a/f.txt b/f.txt\n--- a/f.txt\n+++ b/f.txt\n@@ -10,3 +10,5 @@\n c1\n d1\n+a1\n+a3\n c2\n"
    );
}

#[test]
fn line_patch_with_chosen_deletion_only() {
    let diffs = file(vec![mixed_hunk()]);
    let range = LineRange { hunk: id((10, 3), (10, 5)), line_indices: vec![1] };
    let patch = generate_line_patch("f.txt", &diffs, &range).unwrap();
    assert!(patch.ends_with("@@ -10,3 +10,2 @@\n c1\n-d1\n c2\n"));
}

#[test]
fn line_patch_with_nothing_chosen_keeps_context_only() {
    let diffs = file(vec![mixed_hunk()]);
    let range = LineRange { hunk: id((10, 3), (10, 5)), line_indices: vec![] };
    let patch = generate_line_patch("f.txt", &diffs, &range).unwrap();
    assert!(patch.ends_with("@@ -10,3 +10,3 @@\n c1\n d1\n c2\n"));
}

#[test]
fn line_patch_new_length_is_context_plus_chosen_additions() {
    let h = hunk(
        (1, 2),
        (1, 6),
        vec![
            line(DiffLineKind::Context, "c1\n"),
            line(DiffLineKind::Addition, "a1\n"),
            line(DiffLineKind::Addition, "a2\n"),
            line(DiffLineKind::Addition, "a3\n"),
            line(DiffLineKind::Addition, "a4\n"),
            line(DiffLineKind::Context, "c2\n"),
        ],
    );
    let diffs = file(vec![h]);
    for chosen in [vec![], vec![1], vec![1, 3], vec![1, 2, 3, 4]] {
        let k = chosen.len();
        let range = LineRange { hunk: id((1, 2), (1, 6)), line_indices: chosen };
        let patch = generate_line_patch("f.txt", &diffs, &range).unwrap();
        assert!(patch.contains(&format!("@@ -1,2 +1,{} @@\n", 2 + k)));
    }
}

#[test]
fn line_patch_ignores_indices_of_context_lines_and_beyond() {
    let diffs = file(vec![mixed_hunk()]);
    let range = LineRange { hunk: id((10, 3), (10, 5)), line_indices: vec![0, 5, 99] };
    let patch = generate_line_patch("f.txt", &diffs, &range).unwrap();
    assert!(patch.ends_with("@@ -10,3 +10,3 @@\n c1\n d1\n c2\n"));
}

#[test]
fn line_patch_fails_when_no_hunk_matches() {
    let diffs = file(vec![mixed_hunk()]);
    let range = LineRange { hunk: id((11, 3), (10, 5)), line_indices: vec![1] };
    let err = generate_line_patch("f.txt", &diffs, &range).unwrap_err();
    assert!(matches!(&err, GitError::DiffFailed(m) if m == "hunk not found"));
}

#[test]
fn apply_flags_follow_the_action() {
    assert_eq!(apply_arguments(PatchAction::Stage), vec!["--cached"]);
    assert_eq!(apply_arguments(PatchAction::Unstage), vec!["--cached", "-R"]);
    assert_eq!(apply_arguments(PatchAction::Discard), vec!["-R"]);
    assert!(!reads_staged_diff(PatchAction::Stage));
    assert!(reads_staged_diff(PatchAction::Unstage));
    assert!(!reads_staged_diff(PatchAction::Discard));
}

#[test]
fn apply_failure_carries_the_error_stream() {
    assert!(run_git_apply(PatchAction::Stage, true, "ignored").is_ok());
    let err = run_git_apply(PatchAction::Stage, false, "error: patch failed").unwrap_err();
    assert!(matches!(&err, GitError::StageFailed(m) if m == "error: patch failed"));
    let err = run_git_apply(PatchAction::Unstage, false, "x").unwrap_err();
    assert!(matches!(&err, GitError::UnstageFailed(m) if m == "x"));
    let err = run_git_apply(PatchAction::Discard, false, "y").unwrap_err();
    assert!(matches!(&err, GitError::DiscardFailed(m) if m == "y"));
    assert_eq!(err.message(), "failed to discard changes: y");
}
