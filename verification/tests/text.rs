use rocket_git::git::error::GitError;
use rocket_git::git::search::{fuzzy_match, parse_commit_log_output, parse_grep_output};
use rocket_git::text::case::lowercase_chars;
use rocket_git::text::convert::{chars_of, string_of};
use rocket_git::text::lines::{join_texts, split_lines};
use rocket_git::text::number::{parse_i64, parse_u32, parse_usize, push_decimal};
use rocket_git::text::search::{chars_contain, find_char};
use rocket_git::text::trim::chars_trim;

fn v(s: &str) -> Vec<char> {
    s.chars().collect()
}

fn lines_of(s: &str) -> Vec<String> {
    split_lines(&v(s)).iter().map(string_of).collect()
}

#[test]
fn text_goes_to_characters_and_back() {
    assert_eq!(chars_of("añ😀"), vec!['a', 'ñ', '😀']);
    assert_eq!(string_of(&vec!['a', 'ñ', '😀']), "añ😀");
    assert_eq!(string_of(&Vec::new()), "");
}

#[test]
fn lines_end_at_line_feeds() {
    assert_eq!(lines_of(""), Vec::<String>::new());
    assert_eq!(lines_of("a"), vec!["a"]);
    assert_eq!(lines_of("a\n"), vec!["a"]);
    assert_eq!(lines_of("a\n\nb"), vec!["a", "", "b"]);
    assert_eq!(lines_of("\n"), vec![""]);
    assert_eq!(lines_of("a\r\nb\r\n"), vec!["a", "b"]);
    assert_eq!(lines_of("a\rb\r"), vec!["a\rb\r"]);
    assert_eq!(lines_of("a\r\r\n"), vec!["a\r"]);
    for s in ["", "x", "x\n", "\n\n", "a\r\nb", "a\n\r\n", "tail\r"] {
        let expected: Vec<String> = s.lines().map(|l| l.to_string()).collect();
        assert_eq!(lines_of(s), expected);
    }
}

#[test]
fn trimming_takes_unicode_whitespace() {
    assert_eq!(string_of(&chars_trim(&v("  \t x y \n"))), "x y");
    assert_eq!(string_of(&chars_trim(&v("\u{a0}\u{3000}x\u{2003}\u{85}"))), "x");
    assert_eq!(string_of(&chars_trim(&v(" \n "))), "");
    assert_eq!(string_of(&chars_trim(&v("\u{200b}x"))), "\u{200b}x");
    for s in ["", " a ", "\u{1680}b\u{2028}", "\u{b}c\u{c}", "\u{feff}d"] {
        assert_eq!(string_of(&chars_trim(&v(s))), s.trim());
    }
}

#[test]
fn numbers_are_read_as_the_standard_library_reads_them() {
    for s in ["0", "7", "+7", "-7", "007", "4294967295", "4294967296", "", "+", "-", "1a", " 1", "١"] {
        assert_eq!(parse_u32(&v(s)), s.parse::<u32>().ok(), "u32 {s:?}");
        assert_eq!(parse_i64(&v(s)), s.parse::<i64>().ok(), "i64 {s:?}");
        assert_eq!(parse_usize(&v(s)), s.parse::<usize>().ok(), "usize {s:?}");
    }
    for s in ["9223372036854775807", "9223372036854775808", "-9223372036854775808", "-9223372036854775809", "-0", "+-1", "00000000000000000000000000001"] {
        assert_eq!(parse_i64(&v(s)), s.parse::<i64>().ok(), "i64 {s:?}");
    }
    for s in ["18446744073709551615", "18446744073709551616"] {
        assert_eq!(parse_usize(&v(s)), s.parse::<usize>().ok(), "usize {s:?}");
    }
}

#[test]
fn numbers_are_written_in_decimal() {
    for n in [0u64, 9, 10, 123, 1_000_000, u64::MAX] {
        let mut out = v("n=");
        push_decimal(&mut out, n);
        assert_eq!(string_of(&out), format!("n={n}"));
    }
}

#[test]
fn searching_and_joining() {
    assert_eq!(find_char(&v("a:b:c"), ':', 0), 1);
    assert_eq!(find_char(&v("a:b:c"), ':', 2), 3);
    assert_eq!(find_char(&v("abc"), ':', 0), 3);
    assert!(chars_contain(&v("hello"), &v("")));
    assert!(chars_contain(&v("hello"), &v("llo")));
    assert!(!chars_contain(&v("hello"), &v("lol")));
    assert!(chars_contain(&v(""), &v("")));
    assert_eq!(string_of(&join_texts(&vec![v("a"), v(""), v("b")], ", ")), "a, , b");
    assert_eq!(string_of(&join_texts(&Vec::new(), ", ")), "");
}

#[test]
fn lower_case_is_that_of_the_standard_library() {
    assert_eq!(string_of(&lowercase_chars("HeLLo ÄÖ Σ")), "HeLLo ÄÖ Σ".to_lowercase());
    assert_eq!(string_of(&lowercase_chars("ABC")), "abc");
    assert!(fuzzy_match("SRC/MAIN.RS", "main"));
    assert!(!fuzzy_match("src/main.rs", "MAIN"));
}

#[test]
fn fuzzy_match_edge_cases() {
    assert!(fuzzy_match("anything", ""));
    assert!(fuzzy_match("", ""));
    assert!(!fuzzy_match("", "a"));
    assert!(fuzzy_match("abc", "abc"));
    assert!(fuzzy_match("a-b-c", "abc"));
    assert!(!fuzzy_match("ab", "abc"));
}

#[test]
fn grep_lines_need_a_number_that_fits() {
    assert!(parse_grep_output("f:notanumber:x\n").is_empty());
    assert!(parse_grep_output("f:4294967296:x\n").is_empty());
    let r = parse_grep_output("f:4294967295:\n:1:x\n");
    assert_eq!(r.len(), 2);
    assert_eq!(r[0].line_number, u32::MAX);
    assert_eq!(r[0].content, "");
    assert_eq!(r[1].file, "");
    assert!(parse_grep_output("f:12\n").is_empty());
}

#[test]
fn commit_log_takes_negative_dates() {
    let r = parse_commit_log_output("o\ns\nm\na\n-5\n");
    assert_eq!(r.len(), 1);
    assert_eq!(r[0].author_date, -5);
    assert!(parse_commit_log_output("o\ns\nm\na\n").is_empty());
}

#[test]
fn every_error_names_what_failed() {
    let cases: Vec<(GitError, &str)> = vec![
        (GitError::RepositoryNotFound { path: "p".into() }, "repository not found: p"),
        (GitError::CommitNotFound { oid: "o".into() }, "commit not found: o"),
        (GitError::OpenFailed("c".into()), "failed to open repository: c"),
        (GitError::StatusFailed("c".into()), "failed to get status: c"),
        (GitError::DiffFailed("c".into()), "failed to get diff: c"),
        (GitError::StageFailed("c".into()), "failed to stage file: c"),
        (GitError::UnstageFailed("c".into()), "failed to unstage file: c"),
        (GitError::CommitFailed("c".into()), "failed to commit: c"),
        (GitError::BranchNotFound("c".into()), "failed to get current branch: c"),
        (GitError::ConfigReadFailed("c".into()), "failed to read config: c"),
        (GitError::ConfigWriteFailed("c".into()), "failed to write config: c"),
        (GitError::BranchListFailed("c".into()), "failed to list branches: c"),
        (GitError::BranchCreateFailed("c".into()), "failed to create branch: c"),
        (GitError::CheckoutFailed("c".into()), "failed to checkout branch: c"),
        (GitError::BranchDeleteFailed("c".into()), "failed to delete branch: c"),
        (GitError::BranchRenameFailed("c".into()), "failed to rename branch: c"),
        (GitError::MergeFailed("c".into()), "failed to merge branch: c"),
        (GitError::FetchFailed("c".into()), "failed to fetch: c"),
        (GitError::PullFailed("c".into()), "failed to pull: c"),
        (GitError::PushFailed("c".into()), "failed to push: c"),
        (GitError::RemoteFailed("c".into()), "failed to manage remote: c"),
        (GitError::AuthFailed("c".into()), "authentication failed: c"),
        (GitError::LogFailed("c".into()), "failed to get commit log: c"),
        (GitError::BlameFailed("c".into()), "failed to get blame: c"),
        (GitError::DiscardFailed("c".into()), "failed to discard changes: c"),
    ];
    for (e, text) in cases {
        assert_eq!(e.message(), text);
    }
}
