use rocket_git::git::search::{fuzzy_match, parse_commit_log_output, parse_grep_output};

#[test]
fn parse_grep_output_returns_results_for_valid_output() {
    let output = "src/main.rs:10:fn main() {\nsrc/lib.rs:5:pub mod search;\n";
    let results = parse_grep_output(output);

    assert_eq!(results.len(), 2);
    assert_eq!(results[0].file, "src/main.rs");
    assert_eq!(results[0].line_number, 10);
    assert_eq!(results[0].content, "fn main() {");
    assert_eq!(results[1].file, "src/lib.rs");
    assert_eq!(results[1].line_number, 5);
    assert_eq!(results[1].content, "pub mod search;");
}

#[test]
fn parse_grep_output_returns_empty_for_empty_input() {
    let results = parse_grep_output("");
    assert!(results.is_empty());
}

#[test]
fn parse_grep_output_handles_colons_in_content() {
    let output = "config.toml:3:key = \"value:with:colons\"\n";
    let results = parse_grep_output(output);

    assert_eq!(results.len(), 1);
    assert_eq!(results[0].file, "config.toml");
    assert_eq!(results[0].line_number, 3);
    assert_eq!(results[0].content, "key = \"value:with:colons\"");
}

#[test]
fn parse_grep_output_skips_malformed_lines() {
    let output = "no-colon-line\nsrc/main.rs:10:valid line\n";
    let results = parse_grep_output(output);

    assert_eq!(results.len(), 1);
    assert_eq!(results[0].file, "src/main.rs");
}

#[test]
fn parse_commit_log_output_returns_results_for_valid_output() {
    let output = "abc123def456\nabc123d\nfeat: add search\nAlice\n1700000000\n";
    let results = parse_commit_log_output(output);

    assert_eq!(results.len(), 1);
    assert_eq!(results[0].oid, "abc123def456");
    assert_eq!(results[0].short_oid, "abc123d");
    assert_eq!(results[0].message, "feat: add search");
    assert_eq!(results[0].author_name, "Alice");
    assert_eq!(results[0].author_date, 1700000000);
}

#[test]
fn parse_commit_log_output_returns_empty_for_empty_input() {
    let results = parse_commit_log_output("");
    assert!(results.is_empty());
}

#[test]
fn parse_commit_log_output_parses_multiple_commits() {
    let output =
        "aaa\na\nmsg1\nBob\n1000\nbbb\nb\nmsg2\nCarol\n2000\nccc\nc\nmsg3\nDave\n3000\n";
    let results = parse_commit_log_output(output);

    assert_eq!(results.len(), 3);
    assert_eq!(results[0].oid, "aaa");
    assert_eq!(results[1].oid, "bbb");
    assert_eq!(results[2].oid, "ccc");
}

#[test]
fn parse_commit_log_output_ignores_incomplete_trailing_entry() {
    let output = "aaa\na\nmsg1\nBob\n1000\nincomplete\n";
    let results = parse_commit_log_output(output);

    assert_eq!(results.len(), 1);
}

#[test]
fn parse_commit_log_output_skips_entry_with_invalid_date() {
    let output = "aaa\na\nmsg1\nBob\nnot_a_number\nbbb\nb\nmsg2\nCarol\n2000\n";
    let results = parse_commit_log_output(output);

    assert_eq!(results.len(), 1);
    assert_eq!(results[0].oid, "bbb");
    assert_eq!(results[0].author_date, 2000);
}

#[test]
fn fuzzy_match_matches_substring() {
    assert!(fuzzy_match("src/auth/handler.go", "auth"));
}

#[test]
fn fuzzy_match_matches_case_insensitive() {
    assert!(fuzzy_match("src/Auth/Handler.go", "auth"));
}

#[test]
fn fuzzy_match_matches_fuzzy_characters() {
    assert!(fuzzy_match("src/auth/handler.go", "sah"));
}

#[test]
fn fuzzy_match_returns_false_for_no_match() {
    assert!(!fuzzy_match("src/main.rs", "xyz"));
}

#[test]
fn fuzzy_match_returns_false_for_out_of_order_chars() {
    assert!(!fuzzy_match("abc", "cba"));
}
