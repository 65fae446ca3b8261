use rocket_git::git::types::{DiffHunk, DiffLine, DiffLineKind, FileDiff, WordSegment};
use rocket_git::git::word_diff::{
    compute_word_diff_pair, compute_word_diffs, lcs_length, tokenize_words,
};

fn text_of(segments: &[WordSegment]) -> String {
    segments.iter().map(|s| s.text.as_str()).collect()
}

fn shape_of(segments: &[WordSegment]) -> Vec<(String, bool)> {
    segments.iter().map(|s| (s.text.clone(), s.highlighted)).collect()
}

fn line(kind: DiffLineKind, content: &str) -> DiffLine {
    DiffLine { kind, content: content.to_string(), old_lineno: None, new_lineno: None, word_diff: None }
}

fn chars(tokens: &[&str]) -> Vec<Vec<char>> {
    tokens.iter().map(|t| t.chars().collect()).collect()
}

#[test]
fn tokenize_splits_at_whitespace_and_punctuation() {
    assert_eq!(tokenize_words("a, b"), vec!["a", ",", " ", "b"]);
    assert_eq!(tokenize_words("foo.bar(baz)"), vec!["foo", ".", "bar", "(", "baz", ")"]);
    assert_eq!(tokenize_words("  x"), vec![" ", " ", "x"]);
}

#[test]
fn tokenize_empty_text_has_no_tokens() {
    assert!(tokenize_words("").is_empty());
}

#[test]
fn tokenize_keeps_non_ascii_runs_whole() {
    assert_eq!(tokenize_words("héllo wörld"), vec!["héllo", " ", "wörld"]);
}

#[test]
fn lcs_table_of_small_sequences() {
    let a = chars(&["a", "b", "c"]);
    let b = chars(&["a", "c"]);
    let dp = lcs_length(&a, &b);
    assert_eq!(dp.len(), 4);
    assert_eq!(dp[0], vec![0, 0, 0]);
    assert_eq!(dp[1], vec![0, 1, 1]);
    assert_eq!(dp[2], vec![0, 1, 1]);
    assert_eq!(dp[3], vec![0, 1, 2]);
}

#[test]
fn word_diff_highlights_the_changed_word() {
    let (del, add) = compute_word_diff_pair("foo bar", "foo baz");
    assert_eq!(shape_of(&del), vec![("foo ".to_string(), false), ("bar".to_string(), true)]);
    assert_eq!(shape_of(&add), vec![("foo ".to_string(), false), ("baz".to_string(), true)]);
}

#[test]
fn word_diff_of_equal_lines_highlights_nothing() {
    let (del, add) = compute_word_diff_pair("same line\n", "same line\n");
    assert_eq!(shape_of(&del), vec![("same line\n".to_string(), false)]);
    assert_eq!(shape_of(&add), vec![("same line\n".to_string(), false)]);
}

#[test]
fn word_diff_against_empty_line_highlights_everything() {
    let (del, add) = compute_word_diff_pair("gone now", "");
    assert_eq!(shape_of(&del), vec![("gone now".to_string(), true)]);
    assert!(add.is_empty());
}

#[test]
fn word_diff_breaks_ties_towards_the_deleted_side() {
    let (del, add) = compute_word_diff_pair("a b", "b a");
    assert_eq!(
        shape_of(&del),
        vec![("a".to_string(), false), (" b".to_string(), true)]
    );
    assert_eq!(
        shape_of(&add),
        vec![("b ".to_string(), true), ("a".to_string(), false)]
    );
}

#[test]
fn word_diff_is_lossless() {
    let cases = [
        ("let x = compute(a, b);\n", "let y = compute(a, c, d);\n"),
        ("", "added\n"),
        ("tabs\tand  spaces", "tabs and\tspaces!"),
        ("日本語 text", "日本語のtext"),
    ];
    for (a, b) in cases {
        let (del, add) = compute_word_diff_pair(a, b);
        assert_eq!(text_of(&del), a);
        assert_eq!(text_of(&add), b);
    }
}

#[test]
fn word_diffs_pair_runs_as_far_as_the_shorter_goes() {
    let hunk = DiffHunk {
        header: "@@ -1,3 +1,2 @@".to_string(),
        old_start: 1,
        old_lines: 3,
        new_start: 1,
        new_lines: 2,
        lines: vec![
            line(DiffLineKind::Context, "keep\n"),
            line(DiffLineKind::Deletion, "one two\n"),
            line(DiffLineKind::Deletion, "three\n"),
            line(DiffLineKind::Addition, "one 2\n"),
            line(DiffLineKind::Context, "tail\n"),
        ],
    };
    let mut diffs = vec![FileDiff {
        old_path: Some("f".to_string()),
        new_path: Some("f".to_string()),
        hunks: vec![hunk],
    }];
    compute_word_diffs(&mut diffs);
    let lines = &diffs[0].hunks[0].lines;
    assert!(lines[0].word_diff.is_none());
    assert_eq!(
        shape_of(lines[1].word_diff.as_ref().unwrap()),
        vec![("one ".to_string(), false), ("two".to_string(), true), ("\n".to_string(), false)]
    );
    assert!(lines[2].word_diff.is_none());
    assert_eq!(
        shape_of(lines[3].word_diff.as_ref().unwrap()),
        vec![("one ".to_string(), false), ("2".to_string(), true), ("\n".to_string(), false)]
    );
    assert!(lines[4].word_diff.is_none());
    assert_eq!(lines[1].content, "one two\n");
}

#[test]
fn word_diffs_leave_additions_without_deletions_alone() {
    let hunk = DiffHunk {
        header: "@@ -1 +1,2 @@".to_string(),
        old_start: 1,
        old_lines: 1,
        new_start: 1,
        new_lines: 2,
        lines: vec![line(DiffLineKind::Addition, "new\n"), line(DiffLineKind::Deletion, "old\n")],
    };
    let mut diffs =
        vec![FileDiff { old_path: None, new_path: Some("f".to_string()), hunks: vec![hunk] }];
    compute_word_diffs(&mut diffs);
    assert!(diffs[0].hunks[0].lines[0].word_diff.is_none());
    assert!(diffs[0].hunks[0].lines[1].word_diff.is_none());
}

fn sample(seed: &mut u64, len: usize) -> String {
    let alphabet = ['a', 'b', ' ', ',', '\n', 'é', '_', '1'];
    let mut out = String::new();
    for _ in 0..len {
        *seed = seed.wrapping_mul(6364136223846793005).wrapping_add(1442695040888963407);
        out.push(alphabet[(*seed >> 33) as usize % alphabet.len()]);
    }
    out
}

#[test]
fn word_diff_segments_alternate_and_lose_nothing() {
    let mut seed = 7u64;
    for round in 0..200 {
        let a = sample(&mut seed, round % 13);
        let b = sample(&mut seed, (round * 7) % 11);
        let (del, add) = compute_word_diff_pair(&a, &b);
        assert_eq!(text_of(&del), a);
        assert_eq!(text_of(&add), b);
        for side in [&del, &add] {
            for pair in side.windows(2) {
                assert_ne!(pair[0].highlighted, pair[1].highlighted);
            }
            assert!(side.iter().all(|s| !s.text.is_empty()));
        }
        let kept = |side: &[WordSegment]| -> String {
            side.iter().filter(|s| !s.highlighted).map(|s| s.text.as_str()).collect()
        };
        assert_eq!(kept(&del), kept(&add));
    }
}
