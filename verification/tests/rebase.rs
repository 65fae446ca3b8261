use rocket_git::git::auth::{
    attempt_allowed, credential_sources, helper_request, parse_helper_password, parse_url_parts,
    CredentialSource,
};
use rocket_git::git::error::GitError;
use rocket_git::git::rebase::{
    collect_conflict_paths_from_output, format_rebase_todo, get_rebase_state, rebase_outcome,
    sequence_editor_script, stopped_result, RebaseOutcome,
};
use rocket_git::git::search::{search_code, search_commits, search_filenames};
use rocket_git::git::stash::{parse_stash_branch_name, stash_entry};
use rocket_git::git::types::{RebaseAction, RebaseTodoEntry};
use rocket_git::git::worktree::check_worktree_clean;

fn entry(action: RebaseAction, short: &str, message: &str) -> RebaseTodoEntry {
    RebaseTodoEntry {
        action,
        oid: format!("{short}ffff"),
        short_oid: short.to_string(),
        message: message.to_string(),
        author_name: String::new(),
    }
}

#[test]
fn rebase_plan_has_one_line_for_each_entry() {
    let todo = vec![
        entry(RebaseAction::Pick, "aaa", "first"),
        entry(RebaseAction::Reword, "bbb", "second one"),
        entry(RebaseAction::Edit, "ccc", "c"),
        entry(RebaseAction::Squash, "ddd", "d"),
        entry(RebaseAction::Fixup, "eee", "e"),
        entry(RebaseAction::Drop, "fff", "f"),
    ];
    assert_eq!(
        format_rebase_todo(&todo),
        "pick aaa first\nreword bbb second one\nedit ccc c\nsquash ddd d\nfixup eee e\ndrop fff f"
    );
    assert_eq!(format_rebase_todo(&Vec::new()), "");
}

#[test]
fn editor_script_quotes_single_quotes() {
    assert_eq!(sequence_editor_script("/tmp/todo"), "cat '/tmp/todo' > \"$1\"");
    assert_eq!(sequence_editor_script("/it's/x"), "cat '/it'\\''s/x' > \"$1\"");
}

#[test]
fn rebase_outcome_is_read_from_status_and_error_stream() {
    assert!(matches!(rebase_outcome(true, "CONFLICT", false), RebaseOutcome::Completed(r) if r.completed && r.conflicts.is_empty()));
    assert!(matches!(rebase_outcome(false, "CONFLICT (content)", false), RebaseOutcome::Stopped));
    assert!(matches!(rebase_outcome(false, "merge conflict in x", false), RebaseOutcome::Stopped));
    assert!(matches!(rebase_outcome(false, "Stopped at abc", true), RebaseOutcome::Stopped));
    match rebase_outcome(false, "Stopped at abc", false) {
        RebaseOutcome::Failed(e) => {
            assert!(matches!(&e, GitError::RebaseFailed(m) if m == "Stopped at abc"));
            assert_eq!(e.message(), "failed to rebase: Stopped at abc");
        }
        _ => panic!("a plain rebase does not stop by plan"),
    }
    let r = stopped_result(vec!["a".to_string()]);
    assert!(!r.completed);
    assert_eq!(r.conflicts, vec!["a"]);
}

#[test]
fn conflict_paths_are_the_lines_that_are_not_empty() {
    assert_eq!(collect_conflict_paths_from_output("a.txt\n\nb c.txt\n"), vec!["a.txt", "b c.txt"]);
    assert!(collect_conflict_paths_from_output("").is_empty());
}

#[test]
fn rebase_state_is_read_from_the_files() {
    let s = get_rebase_state(Some("abc123\n"), Some("refs/heads/main\n"), Some("2\n"), Some("5\n"), true);
    assert_eq!(s.onto_oid, "abc123");
    assert_eq!(s.onto_branch, "main");
    assert_eq!(s.current_step, 2);
    assert_eq!(s.total_steps, 5);
    assert!(s.has_conflicts);
    let s = get_rebase_state(Some(" abc \n"), None, None, Some("x"), false);
    assert_eq!(s.onto_oid, "abc");
    assert_eq!(s.onto_branch, "abc");
    assert_eq!(s.current_step, 0);
    assert_eq!(s.total_steps, 0);
    let s = get_rebase_state(None, Some("refs/heads/refs/heads/x"), Some("+7"), None, false);
    assert_eq!(s.onto_oid, "");
    assert_eq!(s.onto_branch, "x");
    assert_eq!(s.current_step, 7);
}

#[test]
fn stash_branch_is_read_from_the_message() {
    assert_eq!(parse_stash_branch_name("WIP on main: abc123 message"), "main");
    assert_eq!(parse_stash_branch_name("On feature/x: my stash"), "feature/x");
    assert_eq!(parse_stash_branch_name("WIP on main without colon"), "");
    assert_eq!(parse_stash_branch_name("something else"), "");
    assert_eq!(parse_stash_branch_name(""), "");
    let e = stash_entry(2, "On dev: wip", None);
    assert_eq!((e.index, e.branch_name.as_str(), e.author_date), (2, "dev", 0));
    assert_eq!(stash_entry(0, "x", Some(9)).author_date, 9);
}

#[test]
fn search_outcomes() {
    assert_eq!(search_code(true, Some(0), "a.rs:3:hit\n", "").unwrap().len(), 1);
    assert!(search_code(false, Some(1), "", "").unwrap().is_empty());
    let e = search_code(false, Some(2), "", "fatal: bad").unwrap_err();
    assert_eq!(e.message(), "failed to search: fatal: bad");
    assert!(search_code(false, None, "", "killed").is_err());
    assert_eq!(search_commits(true, "a\nb\nc\nd\n5\n", "").unwrap()[0].author_date, 5);
    assert!(matches!(search_commits(false, "", "bad"), Err(GitError::SearchFailed(m)) if m == "bad"));
}

#[test]
fn fuzzy_match_with_take_limit_caps_at_100() {
    let mut listing = String::new();
    for i in 0..200 {
        listing.push_str(&format!("src/file_{i}.rs\n"));
    }
    let results = search_filenames(&listing, "src");
    assert_eq!(results.len(), 100);
    assert_eq!(results[0].path, "src/file_0.rs");
    assert_eq!(results[99].path, "src/file_99.rs");
}

#[test]
fn search_filenames_returns_empty_for_empty_query() {
    assert!(search_filenames("a\nb\n", "").is_empty());
}

#[test]
fn search_filenames_matches_in_any_case() {
    let results = search_filenames("SRC/Main.rs\nsrc/lib.rs\nREADME.md\n", "MAIN");
    assert_eq!(results.len(), 1);
    assert_eq!(results[0].path, "SRC/Main.rs");
    let results = search_filenames("src/auth/handler.go\nother\n", "sah");
    assert_eq!(results.len(), 1);
}

#[test]
fn worktree_is_clean_when_status_prints_nothing() {
    assert!(check_worktree_clean(true, ""));
    assert!(check_worktree_clean(true, " \n"));
    assert!(!check_worktree_clean(true, " M file\n"));
    assert!(!check_worktree_clean(false, ""));
}

#[test]
fn url_parts_are_protocol_and_host() {
    assert_eq!(parse_url_parts("https://github.com/o/r.git"), ("https".to_string(), "github.com".to_string()));
    assert_eq!(parse_url_parts("http://host:8080/x"), ("http".to_string(), "host:8080".to_string()));
    assert_eq!(parse_url_parts("https://bare"), ("https".to_string(), "bare".to_string()));
    assert_eq!(parse_url_parts("git@github.com:o/r"), ("https".to_string(), "git@github.com:o/r".to_string()));
}

#[test]
fn credential_helper_is_asked_and_answers() {
    assert_eq!(
        helper_request("https://example.com/repo", "git"),
        "protocol=https\nhost=example.com\nusername=git\n\n"
    );
    assert_eq!(parse_helper_password("username=u\npassword=s3=cr:et\npassword=other\n"), Some("s3=cr:et".to_string()));
    assert_eq!(parse_helper_password("username=u\n"), None);
    assert_eq!(parse_helper_password("password=\n"), Some(String::new()));
}

#[test]
fn credentials_are_tried_three_times_in_order() {
    assert!(attempt_allowed(0).is_ok());
    assert!(attempt_allowed(2).is_ok());
    assert_eq!(attempt_allowed(3).unwrap_err(), "authentication failed after maximum retries");
    assert_eq!(
        credential_sources(true, true),
        vec![
            CredentialSource::SshAgent,
            CredentialSource::KeyEd25519,
            CredentialSource::KeyRsa,
            CredentialSource::Token,
            CredentialSource::Helper,
            CredentialSource::Default,
        ]
    );
    assert_eq!(credential_sources(false, false), vec![CredentialSource::Default]);
    assert_eq!(
        credential_sources(false, true),
        vec![CredentialSource::Token, CredentialSource::Helper, CredentialSource::Default]
    );
}
