use rocket_git::hosting::github::{
    create_pull_request_url, get_default_branch, list_issues, list_pull_requests,
    parse_issue_list_json, parse_pr_detail_json, parse_pr_list_json,
};
use rocket_git::hosting::types::{CheckStatus, IssueState, PrState, ReviewState};

#[test]
fn parse_pr_list_json_parses_valid_json() {
    let json = r#"[
        {
            "number": 42,
            "title": "Add auth",
            "state": "OPEN",
            "author": {"login": "yamada"},
            "createdAt": "2025-01-01T00:00:00Z",
            "updatedAt": "2025-01-02T00:00:00Z",
            "headRefName": "feature/auth",
            "baseRefName": "main",
            "isDraft": false,
            "labels": [{"name": "bug", "color": "ff0000"}],
            "additions": 100,
            "deletions": 20,
            "changedFiles": 5,
            "body": "PR body",
            "url": "https://github.com/owner/repo/pull/42"
        }
    ]"#;
    let prs = parse_pr_list_json(json).unwrap();
    assert_eq!(prs.len(), 1);
    assert_eq!(prs[0].number, 42);
    assert_eq!(prs[0].title, "Add auth");
    assert_eq!(prs[0].state, PrState::Open);
    assert_eq!(prs[0].author, "yamada");
    assert_eq!(prs[0].head_branch, "feature/auth");
    assert!(!prs[0].draft);
    assert_eq!(prs[0].labels.len(), 1);
    assert_eq!(prs[0].additions, 100);
}

#[test]
fn parse_pr_list_json_handles_empty_array() {
    let prs = parse_pr_list_json("[]").unwrap();
    assert!(prs.is_empty());
}

#[test]
fn parse_pr_list_json_handles_closed_state() {
    let json = r#"[{"number":1,"title":"t","state":"CLOSED","author":{"login":"u"},"createdAt":"","updatedAt":"","headRefName":"","baseRefName":"","isDraft":false,"labels":[],"additions":0,"deletions":0,"changedFiles":0,"body":"","url":""}]"#;
    let prs = parse_pr_list_json(json).unwrap();
    assert_eq!(prs[0].state, PrState::Closed);
}

#[test]
fn parse_pr_list_json_handles_merged_state() {
    let json = r#"[{"number":1,"title":"t","state":"MERGED","author":{"login":"u"},"createdAt":"","updatedAt":"","headRefName":"","baseRefName":"","isDraft":false,"labels":[],"additions":0,"deletions":0,"changedFiles":0,"body":"","url":""}]"#;
    let prs = parse_pr_list_json(json).unwrap();
    assert_eq!(prs[0].state, PrState::Merged);
}

#[test]
fn parse_pr_detail_json_parses_checks_and_reviews() {
    let json = r#"{
        "number": 42,
        "title": "Add auth",
        "state": "OPEN",
        "author": {"login": "yamada"},
        "createdAt": "",
        "updatedAt": "",
        "headRefName": "feature/auth",
        "baseRefName": "main",
        "isDraft": false,
        "labels": [],
        "additions": 100,
        "deletions": 20,
        "changedFiles": 5,
        "body": "",
        "url": "",
        "statusCheckRollup": [
            {"name": "build", "conclusion": "SUCCESS", "status": "COMPLETED", "description": "Build", "detailsUrl": "https://ci.example.com/1"}
        ],
        "reviews": [
            {"author": {"login": "tanaka"}, "state": "APPROVED"}
        ]
    }"#;
    let detail = parse_pr_detail_json(json).unwrap();
    assert_eq!(detail.pull_request.number, 42);
    assert_eq!(detail.checks.len(), 1);
    assert_eq!(detail.checks[0].name, "build");
    assert_eq!(detail.checks[0].status, CheckStatus::Success);
    assert_eq!(detail.reviewers.len(), 1);
    assert_eq!(detail.reviewers[0].login, "tanaka");
    assert_eq!(detail.reviewers[0].state, ReviewState::Approved);
}

#[test]
fn parse_issue_list_json_parses_valid_json() {
    let json = r#"[
        {
            "number": 18,
            "title": "Fix login",
            "state": "OPEN",
            "author": {"login": "tanaka"},
            "createdAt": "2025-01-01T00:00:00Z",
            "labels": [],
            "url": "https://github.com/owner/repo/issues/18"
        }
    ]"#;
    let issues = parse_issue_list_json(json).unwrap();
    assert_eq!(issues.len(), 1);
    assert_eq!(issues[0].number, 18);
    assert_eq!(issues[0].state, IssueState::Open);
}

#[test]
fn parse_issue_list_json_handles_closed_state() {
    let json = r#"[{"number":1,"title":"t","state":"CLOSED","author":{"login":"u"},"createdAt":"","labels":[],"url":""}]"#;
    let issues = parse_issue_list_json(json).unwrap();
    assert_eq!(issues[0].state, IssueState::Closed);
}

#[test]
fn parse_pr_list_json_reports_the_first_missing_field() {
    let err = parse_pr_list_json(r#"[{"number":1,"title":"t","url":"u"},{"title":"t"}]"#).unwrap_err();
    assert_eq!(err, "missing field: number");
    let err = parse_pr_list_json(r#"[{"number":1,"url":"u"}]"#).unwrap_err();
    assert_eq!(err, "missing field: title");
    let err = parse_pr_list_json(r#"[{"number":1,"title":"t"}]"#).unwrap_err();
    assert_eq!(err, "missing field: url");
    let err = parse_pr_list_json(r#"[{"number":-1,"title":"t","url":"u"}]"#).unwrap_err();
    assert_eq!(err, "missing field: number");
    let err = parse_issue_list_json(r#"[{"number":"1","title":"t","url":"u"}]"#).unwrap_err();
    assert_eq!(err, "missing field: number");
}

#[test]
fn parse_pr_list_json_fills_in_what_is_missing() {
    let prs = parse_pr_list_json(r#"[{"number":7,"title":"t","url":"u","state":"weird","labels":"no","isDraft":true}]"#).unwrap();
    assert_eq!(prs[0].number, 7);
    assert_eq!(prs[0].state, PrState::Open);
    assert_eq!(prs[0].author, "");
    assert!(prs[0].draft);
    assert!(prs[0].labels.is_empty());
    assert_eq!(prs[0].additions, 0);
    assert_eq!(prs[0].url, "u");
}

#[test]
fn parse_json_failures_say_so() {
    let err = parse_pr_list_json("not json").unwrap_err();
    assert!(err.starts_with("failed to parse JSON: "));
    assert!(err.len() > "failed to parse JSON: ".len());
    assert!(parse_pr_list_json("{}").unwrap_err().starts_with("failed to parse JSON: "));
    assert!(parse_issue_list_json("").unwrap_err().starts_with("failed to parse JSON: "));
    assert!(parse_pr_detail_json("[").unwrap_err().starts_with("failed to parse JSON: "));
    assert_eq!(parse_pr_detail_json("[]").unwrap_err(), "missing field: number");
}

#[test]
fn parse_pr_detail_json_reads_states_of_checks_and_reviews() {
    let json = r#"{"number":1,"title":"t","url":"u",
        "statusCheckRollup":[
            {"name":"a","conclusion":"FAILURE"},
            {"name":"b","conclusion":"","status":"IN_PROGRESS"},
            {"name":"c","status":"QUEUED","detailsUrl":"d"}],
        "reviews":[
            {"author":{"login":"x"},"state":"CHANGES_REQUESTED"},
            {"author":{"login":"y"},"state":"COMMENTED"},
            {"state":"DISMISSED"}]}"#;
    let detail = parse_pr_detail_json(json).unwrap();
    let statuses: Vec<_> = detail.checks.iter().map(|c| c.status).collect();
    assert_eq!(statuses, vec![CheckStatus::Failure, CheckStatus::Running, CheckStatus::Pending]);
    assert_eq!(detail.checks[2].url, "d");
    assert_eq!(detail.checks[2].elapsed, "");
    let states: Vec<_> = detail.reviewers.iter().map(|r| (r.login.as_str(), r.state)).collect();
    assert_eq!(
        states,
        vec![("x", ReviewState::ChangesRequested), ("y", ReviewState::Commented), ("", ReviewState::Pending)]
    );
}

#[test]
fn client_outcomes() {
    assert_eq!(list_pull_requests(false, "[]", "no auth").unwrap_err(), "gh pr list failed: no auth");
    assert!(list_pull_requests(true, "[]", "").unwrap().is_empty());
    assert_eq!(list_issues(false, "", "x").unwrap_err(), "gh issue list failed: x");
    assert!(list_issues(true, "[]", "").unwrap().is_empty());
    assert_eq!(get_default_branch(true, " main\n", "").unwrap(), "main");
    assert_eq!(get_default_branch(true, "\n", "").unwrap_err(), "default branch not found");
    assert_eq!(get_default_branch(false, "", "e").unwrap_err(), "gh repo view failed: e");
    assert_eq!(
        create_pull_request_url(true, "https://github.com/o/r\n", "", "feat", "main").unwrap(),
        "https://github.com/o/r/compare/main...feat?expand=1"
    );
    assert_eq!(create_pull_request_url(false, "", "e", "h", "b").unwrap_err(), "gh browse failed: e");
}
